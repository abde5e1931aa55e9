//! Members of JSON objects that stand for the fields of a record: how they are
//! written and how they are read.
use vstd::prelude::*;
use vstd::string::*;

use crate::json;
use crate::json::{Json, JsonNumber, JsonView};
use crate::keyed;
use crate::text;

verus! {

/// The members with one more, where there is one.
pub open spec fn with_some(members: Seq<(Seq<char>, JsonView)>, key: Seq<char>, j: Option<JsonView>) -> Seq<
    (Seq<char>, JsonView),
> {
    match j {
        Some(v) => members.push((key, v)),
        None => members,
    }
}

/// The JSON of an optional text: null where there is none.
pub open spec fn text_or_null(o: Option<Seq<char>>) -> JsonView {
    match o {
        Some(s) => JsonView::String(s),
        None => JsonView::Null,
    }
}

/// The JSON of an optional text, where there is one.
pub open spec fn some_text(o: Option<Seq<char>>) -> Option<JsonView> {
    match o {
        Some(s) => Some(JsonView::String(s)),
        None => None,
    }
}

/// The JSON of a number.
pub open spec fn number_json(n: nat) -> JsonView
    recommends
        n <= u64::MAX,
{
    JsonView::Number(JsonNumber::PosInt(n as u64))
}

/// The JSON of an optional number, where there is one.
pub open spec fn some_number(o: Option<nat>) -> Option<JsonView> {
    match o {
        Some(n) => Some(number_json(n)),
        None => None,
    }
}

/// The JSON of a list of texts.
pub open spec fn texts_json(s: Seq<Seq<char>>) -> Seq<JsonView> {
    s.map_values(|t: Seq<char>| JsonView::String(t))
}

/// A document has the form of a record: an object, or a list of between `least`
/// and `most` fields in their order.
pub open spec fn is_record(j: JsonView, least: int, most: int) -> bool {
    match j {
        JsonView::Object(_) => true,
        JsonView::Array(items) => least <= items.len() <= most,
        _ => false,
    }
}

/// The field of a record: the member under a key, or the item at an index.
pub open spec fn at(j: JsonView, i: int, key: Seq<char>) -> Option<JsonView> {
    match j {
        JsonView::Array(items) => if 0 <= i < items.len() {
            Some(items[i])
        } else {
            None
        },
        _ => json::view_member(j, key),
    }
}

/// The name of a variant without fields: a text, or the only key of an object,
/// with null under it.
pub open spec fn variant_name(j: JsonView) -> Option<Seq<char>> {
    match j {
        JsonView::String(s) => Some(s),
        JsonView::Object(members) => if members.len() == 1 && members[0].1 is Null {
            Some(members[0].0)
        } else {
            None
        },
        _ => None,
    }
}

/// A text that has to be there.
pub open spec fn need_text(j: JsonView, i: int, key: Seq<char>) -> Option<Seq<char>> {
    match at(j, i, key) {
        Some(JsonView::String(s)) => Some(s),
        _ => None,
    }
}

/// A truth value that has to be there.
pub open spec fn need_bool(j: JsonView, i: int, key: Seq<char>) -> Option<bool> {
    match at(j, i, key) {
        Some(JsonView::Bool(b)) => Some(b),
        _ => None,
    }
}

/// A number that has to be there and may not be greater than a bound.
pub open spec fn need_number(j: JsonView, i: int, key: Seq<char>, most: nat) -> Option<nat> {
    match at(j, i, key) {
        Some(JsonView::Number(JsonNumber::PosInt(n))) => if n <= most {
            Some(n as nat)
        } else {
            None
        },
        _ => None,
    }
}

/// A text that may be missing or null.
pub open spec fn may_text(j: JsonView, i: int, key: Seq<char>) -> Option<Option<Seq<char>>> {
    match at(j, i, key) {
        None => Some(None),
        Some(JsonView::Null) => Some(None),
        Some(JsonView::String(s)) => Some(Some(s)),
        Some(_) => None,
    }
}

/// A truth value, or another where it is missing.
pub open spec fn bool_or(j: JsonView, i: int, key: Seq<char>, other: bool) -> Option<bool> {
    match at(j, i, key) {
        None => Some(other),
        Some(JsonView::Bool(b)) => Some(b),
        Some(_) => None,
    }
}

/// A number that may be missing or null and may not be greater than a bound.
pub open spec fn may_number(j: JsonView, i: int, key: Seq<char>, most: nat) -> Option<Option<nat>> {
    match at(j, i, key) {
        None => Some(None),
        Some(JsonView::Null) => Some(None),
        Some(JsonView::Number(JsonNumber::PosInt(n))) => if n <= most {
            Some(Some(n as nat))
        } else {
            None
        },
        Some(_) => None,
    }
}

/// The texts of a list that holds nothing else.
pub open spec fn texts_of(items: Seq<JsonView>) -> Option<Seq<Seq<char>>>
    decreases items.len(),
{
    if items.len() == 0 {
        Some(Seq::empty())
    } else {
        match (texts_of(items.drop_last()), json::view_text(items.last())) {
            (Some(before), Some(s)) => Some(before.push(s)),
            _ => None,
        }
    }
}

/// A list of texts, empty where it is missing.
pub open spec fn texts_or_none(j: JsonView, i: int, key: Seq<char>) -> Option<Seq<Seq<char>>> {
    match at(j, i, key) {
        None => Some(Seq::empty()),
        Some(JsonView::Array(items)) => texts_of(items),
        Some(_) => None,
    }
}

/// A list of texts that has to be there.
pub open spec fn need_texts(j: JsonView, i: int, key: Seq<char>) -> Option<Seq<Seq<char>>> {
    match at(j, i, key) {
        Some(JsonView::Array(items)) => texts_of(items),
        _ => None,
    }
}

/// Adds a member.
pub fn put(members: &mut Vec<(String, Json)>, key: &str, j: Json)
    ensures
        json::object_view(final(members)@) == json::object_view(old(members)@).push((key@, j@)),
{
    let m = (key.to_owned(), j);
    proof {
        json::lemma_push_member(members@, m);
    }
    members.push(m);
}

/// Adds a text, where there is one.
pub fn put_some_text(members: &mut Vec<(String, Json)>, key: &str, o: &Option<String>)
    ensures
        json::object_view(final(members)@) == with_some(
            json::object_view(old(members)@),
            key@,
            some_text(text::opt_string(*o)),
        ),
{
    if let Some(s) = o {
        put(members, key, Json::String(s.clone()));
    }
}

/// Adds a number, where there is one.
pub fn put_some_number(members: &mut Vec<(String, Json)>, key: &str, o: Option<u64>)
    ensures
        json::object_view(final(members)@) == with_some(
            json::object_view(old(members)@),
            key@,
            some_number(
                match o {
                    Some(n) => Some(n as nat),
                    None => None,
                },
            ),
        ),
{
    if let Some(n) = o {
        put(members, key, Json::Number(JsonNumber::PosInt(n)));
    }
}

/// The JSON of an optional text.
pub fn make_text_or_null(o: &Option<String>) -> (r: Json)
    ensures
        r@ == text_or_null(text::opt_string(*o)),
{
    match o {
        Some(s) => Json::String(s.clone()),
        None => Json::Null,
    }
}

/// The JSON of a list of texts.
pub fn make_texts(list: &Vec<String>) -> (r: Vec<Json>)
    ensures
        json::array_view(r@) == texts_json(text::strings(list@)),
{
    let ghost goal = texts_json(text::strings(list@));
    let mut out: Vec<Json> = Vec::new();
    let mut i: usize = 0;
    assert(goal.take(0) =~= Seq::empty());
    while i < list.len()
        invariant
            i <= list.len(),
            goal == texts_json(text::strings(list@)),
            json::array_view(out@) == goal.take(i as int),
        decreases list.len() - i,
    {
        let j = Json::String(list[i].clone());
        proof {
            json::lemma_push_item(out@, j);
            assert(goal.take(i + 1) =~= goal.take(i as int).push(goal[i as int]));
        }
        out.push(j);
        i = i + 1;
    }
    assert(goal.take(i as int) =~= goal);
    out
}

/// Whether a document has the form of a record.
pub fn has_record(j: &Json, least: usize, most: usize) -> (r: bool)
    ensures
        r == is_record(j@, least as int, most as int),
{
    match j {
        Json::Object(_) => true,
        Json::Array(items) => {
            proof {
                json::lemma_array(items@);
            }
            least <= items.len() && items.len() <= most
        },
        _ => false,
    }
}

/// The field of a record.
pub fn get_at<'a>(j: &'a Json, i: usize, key: &str) -> (r: Option<&'a Json>)
    ensures
        match r {
            Some(m) => at(j@, i as int, key@) == Some(m@),
            None => at(j@, i as int, key@) is None,
        },
{
    match j {
        Json::Array(items) => {
            proof {
                json::lemma_array(items@);
            }
            if i < items.len() {
                Some(&items[i])
            } else {
                None
            }
        },
        _ => j.get(key),
    }
}

/// The name of a variant without fields.
pub fn get_variant_name(j: &Json) -> (r: Option<&str>)
    ensures
        text::opt_slice(r) == variant_name(j@),
{
    match j {
        Json::String(s) => Some(s.as_str()),
        Json::Object(members) => {
            proof {
                json::lemma_object(members@);
            }
            if members.len() == 1 {
                match members[0].1 {
                    Json::Null => Some(members[0].0.as_str()),
                    _ => None,
                }
            } else {
                None
            }
        },
        _ => None,
    }
}

/// Reads a text that has to be there.
pub fn get_need_text(j: &Json, i: usize, key: &str) -> (r: Option<String>)
    ensures
        text::opt_string(r) == need_text(j@, i as int, key@),
{
    match get_at(j, i, key) {
        Some(Json::String(s)) => Some(s.clone()),
        _ => None,
    }
}

/// Reads a truth value that has to be there.
pub fn get_need_bool(j: &Json, i: usize, key: &str) -> (r: Option<bool>)
    ensures
        r == need_bool(j@, i as int, key@),
{
    match get_at(j, i, key) {
        Some(Json::Bool(b)) => Some(*b),
        _ => None,
    }
}

/// Reads a number that has to be there and may not be greater than a bound.
pub fn get_need_number(j: &Json, i: usize, key: &str, most: u64) -> (r: Option<u64>)
    ensures
        match r {
            Some(n) => need_number(j@, i as int, key@, most as nat) == Some(n as nat) && n <= most,
            None => need_number(j@, i as int, key@, most as nat) is None,
        },
{
    match get_at(j, i, key) {
        Some(Json::Number(JsonNumber::PosInt(n))) => if *n <= most {
            Some(*n)
        } else {
            None
        },
        _ => None,
    }
}

/// Reads a text that may be missing or null.
pub fn get_may_text(j: &Json, i: usize, key: &str) -> (r: Option<Option<String>>)
    ensures
        match r {
            Some(o) => may_text(j@, i as int, key@) == Some(text::opt_string(o)),
            None => may_text(j@, i as int, key@) is None,
        },
{
    match get_at(j, i, key) {
        None => Some(None),
        Some(Json::Null) => Some(None),
        Some(Json::String(s)) => Some(Some(s.clone())),
        Some(_) => None,
    }
}

/// Reads a truth value, or takes another where it is missing.
pub fn get_bool_or(j: &Json, i: usize, key: &str, other: bool) -> (r: Option<bool>)
    ensures
        r == bool_or(j@, i as int, key@, other),
{
    match get_at(j, i, key) {
        None => Some(other),
        Some(Json::Bool(b)) => Some(*b),
        Some(_) => None,
    }
}

/// Reads a number that may be missing or null and may not be greater than a bound.
pub fn get_may_number(j: &Json, i: usize, key: &str, most: u64) -> (r: Option<Option<u64>>)
    ensures
        match r {
            Some(Some(n)) => may_number(j@, i as int, key@, most as nat) == Some(Some(n as nat)) && n <= most,
            Some(None) => may_number(j@, i as int, key@, most as nat) == Some(None::<nat>),
            None => may_number(j@, i as int, key@, most as nat) is None,
        },
{
    match get_at(j, i, key) {
        None => Some(None),
        Some(Json::Null) => Some(None),
        Some(Json::Number(JsonNumber::PosInt(n))) => if *n <= most {
            Some(Some(*n))
        } else {
            None
        },
        Some(_) => None,
    }
}

proof fn lemma_texts_prefix(items: Seq<JsonView>, i: int)
    requires
        0 <= i <= items.len(),
    ensures
        texts_of(items) is Some ==> texts_of(items.take(i)) is Some,
    decreases items.len() - i,
{
    if i < items.len() {
        lemma_texts_prefix(items, i + 1);
        assert(items.take(i + 1).drop_last() =~= items.take(i));
    } else {
        assert(items.take(i) =~= items);
    }
}

/// Reads the texts of a list that holds nothing else.
pub fn read_texts(items: &Vec<Json>) -> (r: Option<Vec<String>>)
    ensures
        match r {
            Some(t) => texts_of(json::array_view(items@)) == Some(text::strings(t@)),
            None => texts_of(json::array_view(items@)) is None,
        },
{
    let ghost all = json::array_view(items@);
    let mut out: Vec<String> = Vec::new();
    let mut i: usize = 0;
    proof {
        json::lemma_array(items@);
    }
    assert(text::strings(out@) =~= Seq::empty());
    assert(all.take(0).len() == 0);
    while i < items.len()
        invariant
            i <= items.len(),
            all.len() == items.len(),
            all == json::array_view(items@),
            forall|k: int| 0 <= k < all.len() ==> #[trigger] all[k] == json::json_view(items@[k]),
            texts_of(all.take(i as int)) == Some(text::strings(out@)),
        decreases items.len() - i,
    {
        let ghost before = text::strings(out@);
        proof {
            assert(all.take(i + 1).drop_last() =~= all.take(i as int));
            assert(all.take(i + 1).last() == items@[i as int]@);
            lemma_texts_prefix(all, i + 1);
        }
        match items[i].as_str() {
            Some(s) => {
                out.push(s.to_owned());
                assert(text::strings(out@) =~= before.push(s@));
            },
            None => return None,
        }
        i = i + 1;
    }
    assert(all.take(i as int) =~= all);
    Some(out)
}

/// Reads a list of texts, empty where it is missing.
pub fn get_texts_or_none(j: &Json, i: usize, key: &str) -> (r: Option<Vec<String>>)
    ensures
        match r {
            Some(t) => texts_or_none(j@, i as int, key@) == Some(text::strings(t@)),
            None => texts_or_none(j@, i as int, key@) is None,
        },
{
    match get_at(j, i, key) {
        None => {
            let out: Vec<String> = Vec::new();
            assert(text::strings(out@) =~= Seq::empty());
            Some(out)
        },
        Some(Json::Array(items)) => read_texts(items),
        Some(_) => None,
    }
}

/// Reads a list of texts that has to be there.
pub fn get_need_texts(j: &Json, i: usize, key: &str) -> (r: Option<Vec<String>>)
    ensures
        match r {
            Some(t) => need_texts(j@, i as int, key@) == Some(text::strings(t@)),
            None => need_texts(j@, i as int, key@) is None,
        },
{
    match get_at(j, i, key) {
        Some(Json::Array(items)) => read_texts(items),
        _ => None,
    }
}

/// Texts come back from the list that they are written as.
pub proof fn lemma_texts_come_back(s: Seq<Seq<char>>)
    ensures
        texts_of(texts_json(s)) == Some(s),
    decreases s.len(),
{
    let items = texts_json(s);
    if s.len() > 0 {
        lemma_texts_come_back(s.drop_last());
        assert(items.drop_last() =~= texts_json(s.drop_last()));
        assert(items.last() == JsonView::String(s.last()));
        assert(s.drop_last().push(s.last()) =~= s);
    } else {
        assert(s =~= Seq::empty());
    }
}

/// A member that was added last is found, unless an earlier one has the key;
/// the others are found as before.
pub proof fn lemma_found(members: Seq<(Seq<char>, JsonView)>, key: Seq<char>, j: JsonView, other: Seq<char>)
    ensures
        keyed::lookup(members.push((key, j)), other) == match keyed::lookup(members, other) {
            Some(v) => Some(v),
            None => if other == key {
                Some(j)
            } else {
                None
            },
        },
{
    let all = members.push((key, j));
    keyed::lemma_index_from(members, other, 0);
    keyed::lemma_index_from(all, other, 0);
    if let Some(i) = keyed::index_from(members, other, 0) {
        assert(all[i] == members[i]);
        let k = keyed::index_from(all, other, 0)->0;
        if k < members.len() {
            assert(all[k] == members[k]);
        }
    } else if let Some(k) = keyed::index_from(all, other, 0) {
        if k < members.len() {
            assert(all[k] == members[k]);
        }
    } else {
        assert(all[members.len() as int].0 == key);
    }
}

/// What is found after a member was added.
pub proof fn lemma_found_after_push(members: Seq<(Seq<char>, JsonView)>, key: Seq<char>, j: JsonView)
    ensures
        forall|other: Seq<char>| #[trigger]
            keyed::lookup(members.push((key, j)), other) == match keyed::lookup(members, other) {
                Some(v) => Some(v),
                None => if other == key {
                    Some(j)
                } else {
                    None
                },
            },
{
    assert forall|other: Seq<char>| #[trigger]
        keyed::lookup(members.push((key, j)), other) == match keyed::lookup(members, other) {
            Some(v) => Some(v),
            None => if other == key {
                Some(j)
            } else {
                None
            },
        } by {
        lemma_found(members, key, j, other);
    }
}

/// What is found after a member was added that may be missing.
pub proof fn lemma_found_after(members: Seq<(Seq<char>, JsonView)>, key: Seq<char>, j: Option<JsonView>)
    ensures
        forall|other: Seq<char>| #[trigger]
            keyed::lookup(with_some(members, key, j), other) == match keyed::lookup(members, other) {
                Some(v) => Some(v),
                None => if other == key {
                    j
                } else {
                    None
                },
            },
{
    if let Some(v) = j {
        lemma_found_after_push(members, key, v);
    }
}

} // verus!
