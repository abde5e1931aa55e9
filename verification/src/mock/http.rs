//! The HTTP requests that the provider in memory makes when it starts, if its
//! configuration asks for any: how many, in which manner, and what a reply means.
use vstd::prelude::*;
use vstd::string::*;

use crate::keyed;
use crate::protocol::value;
use crate::protocol::value::{WireValue, WireView};
use crate::text;

verus! {

/// The manner in which requests are made.
#[derive(Debug, Clone, Copy, PartialEq, Eq, Structural)]
pub enum HttpShape {
    Sequential,
    PollBatch,
    TokioJoin,
    SpawnAwait,
    SleepInterleave,
}

/// The manner that a name stands for.
pub open spec fn shape_named(name: Seq<char>) -> Option<HttpShape> {
    if name == "sequential"@ {
        Some(HttpShape::Sequential)
    } else if name == "poll-batch"@ {
        Some(HttpShape::PollBatch)
    } else if name == "tokio-join"@ {
        Some(HttpShape::TokioJoin)
    } else if name == "spawn-await"@ {
        Some(HttpShape::SpawnAwait)
    } else if name == "sleep-interleave"@ {
        Some(HttpShape::SleepInterleave)
    } else {
        None
    }
}

fn parse_shape(name: &str) -> (r: Option<HttpShape>)
    ensures
        r == shape_named(name@),
{
    if text::same(name, "sequential") {
        Some(HttpShape::Sequential)
    } else if text::same(name, "poll-batch") {
        Some(HttpShape::PollBatch)
    } else if text::same(name, "tokio-join") {
        Some(HttpShape::TokioJoin)
    } else if text::same(name, "spawn-await") {
        Some(HttpShape::SpawnAwait)
    } else if text::same(name, "sleep-interleave") {
        Some(HttpShape::SleepInterleave)
    } else {
        None
    }
}

/// The requests that are to be made.
#[derive(Debug)]
pub struct HttpPlan {
    pub url: String,
    pub request_count: u64,
    pub concurrency: u64,
    pub shape: HttpShape,
}

/// A positive number under a key, and one where there is none.
pub open spec fn count_at(attrs: Seq<(Seq<char>, WireView)>, key: Seq<char>) -> u64 {
    match keyed::lookup(attrs, key) {
        Some(WireView::Int(n)) => if n > 0 {
            n as u64
        } else {
            1
        },
        _ => 1,
    }
}

fn get_count(attrs: &Vec<(String, WireValue)>, key: &str) -> (r: u64)
    ensures
        r == count_at(value::entries_view(attrs@), key@),
        r > 0,
{
    match value::get(attrs, key) {
        Some(WireValue::Int(n)) => if *n > 0 {
            *n as u64
        } else {
            1
        },
        _ => 1,
    }
}

/// The name of the manner that a configuration asks for.
pub open spec fn shape_name(attrs: Seq<(Seq<char>, WireView)>) -> Seq<char> {
    match keyed::lookup(attrs, "__mock_initialize_http_shape"@) {
        Some(WireView::String(s)) => s,
        _ => if count_at(attrs, "__mock_initialize_http_concurrency"@) > 1 {
            "poll-batch"@
        } else {
            "sequential"@
        },
    }
}

/// The requests that a configuration asks for: none without an address, and an
/// error where the manner has no known name.
pub fn http_plan(attrs: &Vec<(String, WireValue)>) -> (r: Result<Option<HttpPlan>, String>)
    ensures
        ({
            let a = value::entries_view(attrs@);
            match keyed::lookup(a, "__mock_initialize_http_url"@) {
                Some(WireView::String(url)) => match shape_named(shape_name(a)) {
                    Some(shape) => {
                        &&& r matches Ok(Some(plan))
                        &&& plan.url@ == url
                        &&& plan.request_count == count_at(a, "__mock_initialize_http_requests"@)
                        &&& plan.concurrency == count_at(a, "__mock_initialize_http_concurrency"@)
                        &&& plan.shape == shape
                        &&& plan.request_count > 0
                        &&& plan.concurrency > 0
                    },
                    None => r matches Err(e) && e@ == "unknown __mock_initialize_http_shape: "@ + shape_name(a),
                },
                _ => r matches Ok(None),
            }
        }),
{
    match value::get(attrs, "__mock_initialize_http_url") {
        Some(WireValue::String(url)) => {
            let request_count: u64 = get_count(attrs, "__mock_initialize_http_requests");
            let concurrency: u64 = get_count(attrs, "__mock_initialize_http_concurrency");
            let name = match value::get(attrs, "__mock_initialize_http_shape") {
                Some(WireValue::String(s)) => s.as_str(),
                _ => if concurrency > 1 {
                    "poll-batch"
                } else {
                    "sequential"
                },
            };
            match parse_shape(name) {
                Some(shape) => Ok(Some(HttpPlan { url: url.clone(), request_count, concurrency, shape })),
                None => {
                    let mut e = "unknown __mock_initialize_http_shape: ".to_owned();
                    e.append(name);
                    Err(e)
                },
            }
        },
        _ => Ok(None),
    }
}

/// The address of a request.
pub fn request_url(url: &str, request_index: u64) -> (r: String)
    ensures
        r@ == url@ + "?request="@ + text::digits(request_index as nat),
{
    let mut s = url.to_owned();
    s.append("?request=");
    s.append(text::print_u64(request_index).as_str());
    s
}

/// How many requests run beside each other from `next` on.
pub fn batch_len(next: u64, request_count: u64, concurrency: u64) -> (r: u64)
    requires
        next < request_count,
        concurrency > 0,
    ensures
        r == if concurrency <= request_count - next {
            concurrency as int
        } else {
            request_count - next
        },
        0 < r <= request_count - next,
{
    let rest: u64 = request_count - next;
    if concurrency <= rest {
        concurrency
    } else {
        rest
    }
}

/// How many requests are made together from `next` on where one is started, the
/// next is made, and then the first is awaited.
pub fn spawn_len(next: u64, request_count: u64, concurrency: u64) -> (r: u64)
    requires
        next < request_count,
    ensures
        r == if next + 1 < request_count && concurrency > 1 {
            2u64
        } else {
            1u64
        },
        0 < r <= request_count - next,
{
    if request_count - next > 1 && concurrency > 1 {
        2
    } else {
        1
    }
}

/// What is said of a request that did not succeed.
pub open spec fn status_fault(request_index: nat, status: nat) -> Seq<char> {
    "initialize HTTP request "@ + text::digits(request_index) + " returned status "@ + text::digits(status)
}

/// Whether a request succeeded: its status lies between 200 and 299.
pub fn check_status(request_index: u64, status: u16) -> (r: Result<(), String>)
    ensures
        match r {
            Ok(_) => 200 <= status < 300,
            Err(e) => (status < 200 || status >= 300) && e@ == status_fault(request_index as nat, status as nat),
        },
{
    if status < 200 || status >= 300 {
        let mut e = "initialize HTTP request ".to_owned();
        e.append(text::print_u64(request_index).as_str());
        e.append(" returned status ");
        e.append(text::print_u64(status as u64).as_str());
        return Err(e);
    }
    Ok(())
}

/// A status with its reason, such as `404 Not Found`.
pub uninterp spec fn status_text(status: u16) -> Seq<char>;

/// `http::StatusCode::from_u16`, which takes the numbers of three digits, and the
/// text of the code. The text depends on the number alone and is named
/// `status_text`.
#[verifier::external_body]
fn print_status(status: u16) -> (r: Option<String>)
    ensures
        match r {
            Some(t) => 100 <= status < 1000 && t@ == status_text(status),
            None => status < 100 || status >= 1000,
        },
{
    http::StatusCode::from_u16(status).ok().map(|code| code.to_string())
}

/// Whether a request succeeded whose status has been made a text.
pub fn check_shown_status(status: u16, shown: &str) -> (r: Result<(), String>)
    ensures
        match r {
            Ok(_) => 200 <= status < 300,
            Err(e) => (status < 200 || status >= 300) && e@ == "initialize HTTP request returned status "@ + shown@,
        },
{
    if status < 200 || status >= 300 {
        let mut e = "initialize HTTP request returned status ".to_owned();
        e.append(shown);
        return Err(e);
    }
    Ok(())
}

/// Whether a request succeeded that was made after the one before it had ended.
pub fn check_sequential_status(status: u16) -> (r: Result<(), String>)
    requires
        100 <= status < 1000,
    ensures
        match r {
            Ok(_) => 200 <= status < 300,
            Err(e) => (status < 200 || status >= 300) && e@ == "initialize HTTP request returned status "@
                + status_text(status),
        },
{
    match print_status(status) {
        Some(shown) => check_shown_status(status, shown.as_str()),
        None => Ok(()),
    }
}

} // verus!
