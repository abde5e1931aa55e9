//! Which failures are tried again, and how long the pauses are.
use vstd::prelude::*;

use crate::protocol::types::ErrorView;
use crate::provider::cloud_control;
use crate::provider::cloud_control::{Backoff, CallStep, SdkKindView};
use crate::text;

verus! {

/// A call that took too long or could not be sent is tried again. One that the
/// service refused is tried again exactly for the codes of conditions that pass by
/// themselves, and so not without a code. A failure that says that something does
/// not exist is never tried again.
pub proof fn law_passing_conditions_are_retried(code: Seq<char>)
    ensures
        cloud_control::retryable(SdkKindView::Timeout),
        cloud_control::retryable(SdkKindView::Dispatch),
        !cloud_control::retryable(SdkKindView::Other),
        !cloud_control::retryable(SdkKindView::Service(None)),
        cloud_control::retryable(SdkKindView::Service(Some(code))) <==> seq![
            "ThrottlingException"@,
            "ServiceInternalErrorException"@,
            "HandlerFailureException"@,
            "HandlerInternalFailureException"@,
            "NetworkFailureException"@,
            "ConcurrentOperationException"@,
            "NotStabilizedException"@,
        ].contains(code),
        cloud_control::not_found(SdkKindView::Service(Some(code))) <==> seq![
            "ResourceNotFoundException"@,
            "HandlerNotFoundException"@,
        ].contains(code),
        !cloud_control::not_found(SdkKindView::Service(None)),
        !cloud_control::not_found(SdkKindView::Timeout),
        !cloud_control::not_found(SdkKindView::Dispatch),
        !cloud_control::not_found(SdkKindView::Other),
        !(cloud_control::retryable(SdkKindView::Service(Some(code))) && cloud_control::not_found(
            SdkKindView::Service(Some(code)),
        )),
{
    let passing = seq![
        "ThrottlingException"@,
        "ServiceInternalErrorException"@,
        "HandlerFailureException"@,
        "HandlerInternalFailureException"@,
        "NetworkFailureException"@,
        "ConcurrentOperationException"@,
        "NotStabilizedException"@,
    ];
    let missing = seq!["ResourceNotFoundException"@, "HandlerNotFoundException"@];
    if cloud_control::passing_code(code) {
        assert(passing[0] == code || passing[1] == code || passing[2] == code || passing[3] == code || passing[4] == code
            || passing[5] == code || passing[6] == code);
    }
    if cloud_control::not_found_code(code) {
        assert(missing[0] == code || missing[1] == code);
    }
    reveal_strlit("ResourceNotFoundException");
    reveal_strlit("HandlerNotFoundException");
    reveal_strlit("ThrottlingException");
    reveal_strlit("ServiceInternalErrorException");
    reveal_strlit("HandlerFailureException");
    reveal_strlit("HandlerInternalFailureException");
    reveal_strlit("NetworkFailureException");
    reveal_strlit("ConcurrentOperationException");
    reveal_strlit("NotStabilizedException");
    assert("ResourceNotFoundException"@.len() == 25 && "HandlerNotFoundException"@.len() == 24);
    assert("ThrottlingException"@.len() == 19 && "ServiceInternalErrorException"@.len() == 29);
    assert("HandlerFailureException"@.len() == 23 && "HandlerInternalFailureException"@.len() == 31);
    assert("NetworkFailureException"@.len() == 23 && "ConcurrentOperationException"@.len() == 28);
    assert("NotStabilizedException"@.len() == 22);
}

/// An operation that ended badly is tried again where its message holds one of the
/// texts of conditions that pass by themselves, wherever it stands, and not else.
pub proof fn law_passing_messages_are_retried(before: Seq<char>, after: Seq<char>, message: Seq<char>, k: int)
    ensures
        ({
            let texts = seq![
                "missing a source resource"@,
                "Throttling"@,
                "Rate exceeded"@,
                "RequestLimitExceeded"@,
                "ServiceUnavailable"@,
                "InternalError"@,
            ];
            &&& 0 <= k < texts.len() ==> cloud_control::retryable_message(before + texts[k] + after)
            &&& (forall|i: int| 0 <= i < texts.len() ==> !text::holds(message, #[trigger] texts[i]))
                ==> !cloud_control::retryable_message(message)
        }),
{
    let texts = seq![
        "missing a source resource"@,
        "Throttling"@,
        "Rate exceeded"@,
        "RequestLimitExceeded"@,
        "ServiceUnavailable"@,
        "InternalError"@,
    ];
    if 0 <= k < texts.len() {
        let whole = before + texts[k] + after;
        assert(whole.subrange(before.len() as int, (before.len() + texts[k].len()) as int) =~= texts[k]);
        assert(text::stands_at(whole, texts[k], before.len() as int));
        assert(text::holds(whole, texts[k]));
        assert(k == 0 || k == 1 || k == 2 || k == 3 || k == 4 || k == 5);
    }
    if forall|i: int| 0 <= i < texts.len() ==> !text::holds(message, #[trigger] texts[i]) {
        assert(!text::holds(message, texts[0]));
        assert(!text::holds(message, texts[1]));
        assert(!text::holds(message, texts[2]));
        assert(!text::holds(message, texts[3]));
        assert(!text::holds(message, texts[4]));
        assert(!text::holds(message, texts[5]));
    }
}

/// The first pause is the first delay. While it stays within the limit, each pause
/// is the first delay doubled as often as the call was tried; from then on it is the
/// limit.
pub proof fn law_pauses_are_doubled_up_to_the_limit(n: nat, first: int, most: int)
    requires
        0 < first <= most,
    ensures
        cloud_control::delay_after(0, first, most) == first,
        cloud_control::delay_after(n, first, most) == if doubled(first, n) <= most {
            doubled(first, n)
        } else {
            most
        },
    decreases n,
{
    if n > 0 {
        law_pauses_are_doubled_up_to_the_limit((n - 1) as nat, first, most);
        lemma_doubled(first, (n - 1) as nat);
    }
}

/// A number doubled so many times.
pub open spec fn doubled(first: int, n: nat) -> int
    decreases n,
{
    if n == 0 {
        first
    } else {
        2 * doubled(first, (n - 1) as nat)
    }
}

proof fn lemma_doubled(first: int, n: nat)
    requires
        0 < first,
    ensures
        first <= doubled(first, n),
    decreases n,
{
    if n > 0 {
        lemma_doubled(first, (n - 1) as nat);
    }
}

/// A failure ends a call, with the error that it makes, where its condition does not
/// pass by itself or the call was tried as often as it may be. Otherwise the call is
/// made again after the pause that is due, and the next pause is twice as long, up to
/// the limit.
pub proof fn law_failures_end_or_are_retried(
    before: Backoff,
    after: Backoff,
    may_pass: bool,
    error: ErrorView,
    step: CallStep,
)
    requires
        before.wf(),
        before.first_delay_secs > 0,
        cloud_control::retried_or_failed(before, after, may_pass, error, step),
    ensures
        !may_pass || before.attempt == before.max_attempts ==> (step matches CallStep::Fail(e) && e@ == error) && after
            == before,
        may_pass && before.attempt < before.max_attempts ==> {
            &&& step == CallStep::Retry(before.delay_secs)
            &&& after.attempt == before.attempt + 1
            &&& after.max_attempts == before.max_attempts
            &&& after.delay_secs == if before.delay_secs * 2 <= before.max_delay_secs {
                before.delay_secs * 2
            } else {
                before.max_delay_secs as int
            }
        },
{
    cloud_control::law_delays_double(
        before.attempt as nat,
        before.first_delay_secs as int,
        before.max_delay_secs as int,
    );
}

/// Deleting an address manager, or what is named after one, may take three times as
/// long as any other operation.
pub proof fn law_address_managers_take_longer(before: Seq<char>, after: Seq<char>, typename: Seq<char>, operation: Seq<char>)
    ensures
        cloud_control::polling_limit(before + "IPAM"@ + after, "delete"@) == 3 * cloud_control::polling_limit(
            before + "IPAM"@ + after,
            "create"@,
        ),
        operation != "delete"@ ==> cloud_control::polling_limit(typename, operation) == 120,
        !text::holds(typename, "IPAM"@) ==> cloud_control::polling_limit(typename, operation) == 120,
{
    let whole = before + "IPAM"@ + after;
    let n: int = before.len() as int;
    assert(whole.subrange(n, n + "IPAM"@.len()) =~= "IPAM"@);
    assert(text::stands_at(whole, "IPAM"@, n));
    assert("delete"@ != "create"@) by {
        reveal_strlit("delete");
        reveal_strlit("create");
        assert("delete"@[0] != "create"@[0]);
    }
}

} // verus!
