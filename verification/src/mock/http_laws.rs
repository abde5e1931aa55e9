//! How the mock provider makes its requests.
use vstd::prelude::*;

use crate::keyed;
use crate::mock::http;
use crate::mock::http::HttpShape;
use crate::protocol::value::WireView;

verus! {

/// Each manner has its own name, and no other name stands for one.
pub proof fn law_shapes_are_known_by_name(name: Seq<char>)
    ensures
        http::shape_named("sequential"@) == Some(HttpShape::Sequential),
        http::shape_named("poll-batch"@) == Some(HttpShape::PollBatch),
        http::shape_named("tokio-join"@) == Some(HttpShape::TokioJoin),
        http::shape_named("spawn-await"@) == Some(HttpShape::SpawnAwait),
        http::shape_named("sleep-interleave"@) == Some(HttpShape::SleepInterleave),
        http::shape_named(name) is Some ==> name == "sequential"@ || name == "poll-batch"@ || name == "tokio-join"@ || name
            == "spawn-await"@ || name == "sleep-interleave"@,
{
    reveal_strlit("sequential");
    reveal_strlit("poll-batch");
    reveal_strlit("tokio-join");
    reveal_strlit("spawn-await");
    reveal_strlit("sleep-interleave");
    assert("sequential"@.len() == 10 && "poll-batch"@.len() == 10 && "tokio-join"@.len() == 10);
    assert("spawn-await"@.len() == 11 && "sleep-interleave"@.len() == 16);
    assert("sequential"@[0] == 's' && "poll-batch"@[0] == 'p' && "tokio-join"@[0] == 't');
}

/// A count is the number that is given, if it is positive, and else one.
pub proof fn law_counts_are_positive(attrs: Seq<(Seq<char>, WireView)>, key: Seq<char>, n: i64)
    ensures
        http::count_at(attrs, key) >= 1,
        keyed::lookup(attrs, key) == Some(WireView::Int(n)) && n > 0 ==> http::count_at(attrs, key) == n,
        keyed::lookup(attrs, key) == Some(WireView::Int(n)) && n <= 0 ==> http::count_at(attrs, key) == 1,
        keyed::lookup(attrs, key) is None ==> http::count_at(attrs, key) == 1,
{
}

/// The manner is the one that is named. Where none is, requests go one after the
/// other, or in batches where several may run at a time.
pub proof fn law_default_shapes(attrs: Seq<(Seq<char>, WireView)>, name: Seq<char>)
    ensures
        keyed::lookup(attrs, "__mock_initialize_http_shape"@) == Some(WireView::String(name)) ==> http::shape_name(attrs)
            == name,
        keyed::lookup(attrs, "__mock_initialize_http_shape"@) is None ==> http::shape_named(http::shape_name(attrs)) == Some(
            if http::count_at(attrs, "__mock_initialize_http_concurrency"@) > 1 {
                HttpShape::PollBatch
            } else {
                HttpShape::Sequential
            },
        ),
{
    law_shapes_are_known_by_name(name);
}

} // verus!
