//! What numbers and members of documents stand for.
use vstd::prelude::*;

use crate::json;
use crate::json::{JsonNumber, JsonView};
use crate::keyed;

verus! {

/// A whole number of a configuration is the same number in a document and comes back
/// as it was. A number of a document that is too large, or that has a fraction, is
/// none.
pub proof fn law_whole_numbers_come_back(i: i64, u: u64)
    ensures
        json::number_as_i64(json::number_of_i64(i)) == Some(i),
        i >= 0 ==> json::number_of_i64(i) == JsonNumber::PosInt(i as u64),
        i < 0 ==> json::number_of_i64(i) == JsonNumber::NegInt(i),
        json::number_as_i64(JsonNumber::PosInt(u)) is Some <==> u <= i64::MAX,
        json::number_as_i64(JsonNumber::PosInt(u)) matches Some(n) ==> n == u,
        json::number_as_i64(JsonNumber::NegInt(i)) == Some(i),
{
}

/// Only an object has members, only an array has items, and only a string has a
/// text; a member that is put is found, and the others stay.
pub proof fn law_parts_of_documents(j: JsonView, members: Seq<(Seq<char>, JsonView)>, key: Seq<char>, m: JsonView, other: Seq<char>)
    ensures
        !(j is Object) ==> json::view_member(j, key) is None,
        json::view_items(j) is Some <==> j is Array,
        json::view_text(j) is Some <==> j is String,
        json::view_member(JsonView::Object(keyed::set(members, key, m)), key) == Some(m),
        other != key ==> json::view_member(JsonView::Object(keyed::set(members, key, m)), other) == json::view_member(
            JsonView::Object(members),
            other,
        ),
        json::view_member(JsonView::Object(seq![]), key) is None,
        json::view_items(JsonView::Array(seq![m])) == Some(seq![m]),
        json::view_text(JsonView::String(key)) == Some(key),
{
    keyed::law_set_then_lookup(members, key, m, other);
}

/// A document is the same as itself, and the order of two members does not matter.
pub proof fn law_order_of_members_does_not_matter(j: JsonView, a: Seq<char>, x: JsonView, b: Seq<char>, y: JsonView)
    requires
        a != b,
    ensures
        json::same_json(j, j),
        json::same_json(JsonView::Object(seq![(a, x), (b, y)]), JsonView::Object(seq![(b, y), (a, x)])),
        x != y && !(x is Array) && !(x is Object) ==> !json::same_json(x, y),
{
    let p = seq![(a, x), (b, y)];
    let q = seq![(b, y), (a, x)];
    reveal_with_fuel(keyed::index_from, 3);
    assert(keyed::lookup(p, a) == Some(x) && keyed::lookup(p, b) == Some(y));
    assert(keyed::lookup(q, a) == Some(x) && keyed::lookup(q, b) == Some(y));
    assert(json::same_json(x, x) && json::same_json(y, y));
    assert forall|i: int| 0 <= i < p.len() implies {
        &&& keyed::lookup(q, (#[trigger] p[i]).0) is Some
        &&& json::same_json(p[i].1, keyed::lookup(q, p[i].0)->0)
    } by {
        assert(i == 0 || i == 1);
    }
    assert forall|i: int| 0 <= i < q.len() implies keyed::lookup(p, (#[trigger] q[i]).0) is Some by {
        assert(i == 0 || i == 1);
    }
}

} // verus!
