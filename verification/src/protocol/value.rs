//! Values that cross the boundary between a host and a provider.
use vstd::prelude::*;
use vstd::string::*;

use crate::json;
use crate::json::{Json, JsonNumber, JsonView};
use crate::keyed;
use crate::value;
use crate::value::Float;

verus! {

/// A value that crosses the boundary: nothing in it is left to resolve. A map
/// holds no key twice.
#[derive(Debug, PartialEq)]
pub enum WireValue {
    String(String),
    Int(i64),
    Float(Float),
    Bool(bool),
    List(Vec<WireValue>),
    Mapping(Vec<(String, WireValue)>),
}

/// A value with sequences in the place of strings and vectors.
pub enum WireView {
    String(Seq<char>),
    Int(i64),
    Float(Float),
    Bool(bool),
    List(Seq<WireView>),
    Mapping(Seq<(Seq<char>, WireView)>),
}

pub open spec fn value_view(v: WireValue) -> WireView
    decreases v,
{
    match v {
        WireValue::String(s) => WireView::String(s@),
        WireValue::Int(i) => WireView::Int(i),
        WireValue::Float(f) => WireView::Float(f),
        WireValue::Bool(b) => WireView::Bool(b),
        WireValue::List(items) => WireView::List(values_view(items@)),
        WireValue::Mapping(entries) => WireView::Mapping(entries_view(entries@)),
    }
}

pub open spec fn values_view(s: Seq<WireValue>) -> Seq<WireView>
    decreases s,
{
    if s.len() == 0 {
        Seq::empty()
    } else {
        values_view(s.subrange(0, s.len() - 1)).push(value_view(s[s.len() - 1]))
    }
}

pub open spec fn entries_view(s: Seq<(String, WireValue)>) -> Seq<(Seq<char>, WireView)>
    decreases s,
{
    if s.len() == 0 {
        Seq::empty()
    } else {
        let last = s[s.len() - 1];
        entries_view(s.subrange(0, s.len() - 1)).push((last.0@, value_view(last.1)))
    }
}

impl View for WireValue {
    type V = WireView;

    open spec fn view(&self) -> WireView {
        value_view(*self)
    }
}

/// The view of an optional value.
pub open spec fn opt_value(o: Option<WireValue>) -> Option<WireView> {
    match o {
        Some(v) => Some(v@),
        None => None,
    }
}

pub proof fn lemma_values(s: Seq<WireValue>)
    ensures
        values_view(s).len() == s.len(),
        forall|i: int| 0 <= i < s.len() ==> #[trigger] values_view(s)[i] == value_view(s[i]),
    decreases s.len(),
{
    if s.len() > 0 {
        lemma_values(s.subrange(0, s.len() - 1));
    }
}

pub proof fn lemma_entries(s: Seq<(String, WireValue)>)
    ensures
        entries_view(s).len() == s.len(),
        forall|i: int| 0 <= i < s.len() ==> #[trigger] entries_view(s)[i] == (s[i].0@, value_view(s[i].1)),
    decreases s.len(),
{
    if s.len() > 0 {
        lemma_entries(s.subrange(0, s.len() - 1));
    }
}

pub proof fn lemma_push_value(s: Seq<WireValue>, v: WireValue)
    ensures
        values_view(s.push(v)) == values_view(s).push(value_view(v)),
{
    assert(s.push(v).subrange(0, s.len() as int) =~= s);
}

pub proof fn lemma_push_entry(s: Seq<(String, WireValue)>, e: (String, WireValue))
    ensures
        entries_view(s.push(e)) == entries_view(s).push((e.0@, value_view(e.1))),
{
    assert(s.push(e).subrange(0, s.len() as int) =~= s);
}

/// The view of a prefix grows by one element.
pub proof fn lemma_next_value(s: Seq<WireValue>, i: int)
    requires
        0 <= i < s.len(),
    ensures
        values_view(s.take(i + 1)) == values_view(s.take(i)).push(value_view(s[i])),
{
    assert(s.take(i + 1) =~= s.take(i).push(s[i]));
    lemma_push_value(s.take(i), s[i]);
}

/// The view of a prefix grows by one entry.
pub proof fn lemma_next_entry(s: Seq<(String, WireValue)>, i: int)
    requires
        0 <= i < s.len(),
    ensures
        entries_view(s.take(i + 1)) == entries_view(s.take(i)).push((s[i].0@, value_view(s[i].1))),
{
    assert(s.take(i + 1) =~= s.take(i).push(s[i]));
    lemma_push_entry(s.take(i), s[i]);
}

/// A copy of a list of values.
pub fn copy_values(items: &Vec<WireValue>) -> (r: Vec<WireValue>)
    ensures
        values_view(r@) == values_view(items@),
    decreases items@,
{
    let mut out: Vec<WireValue> = Vec::new();
    let mut i: usize = 0;
    assert(out@ =~= items@.take(0));
    while i < items.len()
        invariant
            i <= items.len(),
            values_view(out@) == values_view(items@.take(i as int)),
        decreases items.len() - i,
    {
        let v = copy_value(&items[i]);
        proof {
            lemma_push_value(out@, v);
            lemma_next_value(items@, i as int);
        }
        out.push(v);
        i = i + 1;
    }
    assert(items@.take(i as int) =~= items@);
    out
}

/// A copy of a list of entries.
pub fn copy_entries(entries: &Vec<(String, WireValue)>) -> (r: Vec<(String, WireValue)>)
    ensures
        entries_view(r@) == entries_view(entries@),
    decreases entries@,
{
    let mut out: Vec<(String, WireValue)> = Vec::new();
    let mut i: usize = 0;
    assert(out@ =~= entries@.take(0));
    while i < entries.len()
        invariant
            i <= entries.len(),
            entries_view(out@) == entries_view(entries@.take(i as int)),
        decreases entries.len() - i,
    {
        let e = (entries[i].0.clone(), copy_value(&entries[i].1));
        proof {
            lemma_push_entry(out@, e);
            lemma_next_entry(entries@, i as int);
        }
        out.push(e);
        i = i + 1;
    }
    assert(entries@.take(i as int) =~= entries@);
    out
}

/// A copy of a value.
pub fn copy_value(v: &WireValue) -> (r: WireValue)
    ensures
        r@ == v@,
    decreases v,
{
    match v {
        WireValue::String(s) => WireValue::String(s.clone()),
        WireValue::Int(i) => WireValue::Int(*i),
        WireValue::Float(f) => WireValue::Float(*f),
        WireValue::Bool(b) => WireValue::Bool(*b),
        WireValue::List(items) => WireValue::List(copy_values(items)),
        WireValue::Mapping(entries) => WireValue::Mapping(copy_entries(entries)),
    }
}

impl Clone for WireValue {
    fn clone(&self) -> (r: Self)
        ensures
            r@ == self@,
    {
        copy_value(self)
    }
}

/// The value under a key.
pub fn get<'a>(entries: &'a Vec<(String, WireValue)>, key: &str) -> (r: Option<&'a WireValue>)
    ensures
        match r {
            Some(v) => keyed::lookup(entries_view(entries@), key@) == Some(v@),
            None => keyed::lookup(entries_view(entries@), key@) is None,
        },
{
    proof {
        lemma_entries(entries@);
        assert forall|i: int| 0 <= i < entries@.len() implies (#[trigger] entries@[i]).0@ == entries_view(entries@)[i].0 by {};
        keyed::lemma_position(entries@, entries_view(entries@), key@, 0);
    }
    match keyed::position(entries, key) {
        Some(i) => Some(&entries[i].1),
        None => None,
    }
}

/// Whether there is a value under a key.
pub fn has_key(entries: &Vec<(String, WireValue)>, key: &str) -> (r: bool)
    ensures
        r == keyed::lookup(entries_view(entries@), key@) is Some,
{
    get(entries, key).is_some()
}

/// Puts a value under a key, in the place of the one that is there.
pub fn put(entries: &mut Vec<(String, WireValue)>, key: String, v: WireValue)
    ensures
        entries_view(final(entries)@) == keyed::set(entries_view(old(entries)@), key@, v@),
{
    let ghost before = entries@;
    let ghost e = (key, v);
    proof {
        lemma_entries(entries@);
        assert forall|i: int| 0 <= i < entries@.len() implies (#[trigger] entries@[i]).0@ == entries_view(entries@)[i].0 by {};
        keyed::lemma_position(entries@, entries_view(entries@), key@, 0);
    }
    match keyed::position(entries, key.as_str()) {
        Some(i) => {
            entries.set(i, (key, v));
            proof {
                lemma_entries(entries@);
                assert(entries@ =~= before.update(i as int, e));
                assert(entries_view(entries@) =~= entries_view(before).update(i as int, (e.0@, e.1@)));
            }
        },
        None => {
            entries.push((key, v));
            proof {
                lemma_push_entry(before, e);
            }
        },
    }
}

/// Takes away the value under a key, where there is one.
pub fn take_out(entries: &mut Vec<(String, WireValue)>, key: &str)
    ensures
        entries_view(final(entries)@) == keyed::without(entries_view(old(entries)@), key@),
{
    let ghost before = entries@;
    proof {
        lemma_entries(entries@);
        assert forall|i: int| 0 <= i < entries@.len() implies (#[trigger] entries@[i]).0@ == entries_view(entries@)[i].0 by {};
        keyed::lemma_position(entries@, entries_view(entries@), key@, 0);
    }
    if let Some(i) = keyed::position(entries, key) {
        entries.remove(i);
        proof {
            lemma_entries(entries@);
            assert(entries@ =~= before.remove(i as int));
            assert(entries_view(entries@) =~= entries_view(before).remove(i as int));
        }
    }
}

/// The JSON of a value. A float that is not finite has none but null.
pub open spec fn json_of(v: WireView) -> JsonView
    decreases v,
{
    match v {
        WireView::Bool(b) => JsonView::Bool(b),
        WireView::Int(i) => JsonView::Number(json::number_of_i64(i)),
        WireView::Float(f) => if value::float_finite(f) {
            JsonView::Number(JsonNumber::Float(f))
        } else {
            JsonView::Null
        },
        WireView::String(s) => JsonView::String(s),
        WireView::List(items) => JsonView::Array(array_of(items)),
        WireView::Mapping(entries) => JsonView::Object(object_of(entries)),
    }
}

pub open spec fn array_of(items: Seq<WireView>) -> Seq<JsonView>
    decreases items,
{
    if items.len() == 0 {
        Seq::empty()
    } else {
        array_of(items.subrange(0, items.len() - 1)).push(json_of(items[items.len() - 1]))
    }
}

pub open spec fn object_of(entries: Seq<(Seq<char>, WireView)>) -> Seq<(Seq<char>, JsonView)>
    decreases entries,
{
    if entries.len() == 0 {
        Seq::empty()
    } else {
        let last = entries[entries.len() - 1];
        object_of(entries.subrange(0, entries.len() - 1)).push((last.0, json_of(last.1)))
    }
}

/// The value of a document. Null is the empty string, and a number that is no
/// 64-bit integer is a float.
pub open spec fn value_of(j: JsonView) -> WireView
    decreases j,
{
    match j {
        JsonView::Null => WireView::String(Seq::empty()),
        JsonView::Bool(b) => WireView::Bool(b),
        JsonView::Number(n) => match json::number_as_i64(n) {
            Some(i) => WireView::Int(i),
            None => match n {
                JsonNumber::Float(f) => WireView::Float(f),
                JsonNumber::PosInt(u) => WireView::Float(value::nearest_float(u)),
                JsonNumber::NegInt(i) => WireView::Int(i),
            },
        },
        JsonView::String(s) => WireView::String(s),
        JsonView::Array(items) => WireView::List(list_of(items)),
        JsonView::Object(members) => WireView::Mapping(map_of(members)),
    }
}

pub open spec fn list_of(items: Seq<JsonView>) -> Seq<WireView>
    decreases items,
{
    if items.len() == 0 {
        Seq::empty()
    } else {
        list_of(items.subrange(0, items.len() - 1)).push(value_of(items[items.len() - 1]))
    }
}

pub open spec fn map_of(members: Seq<(Seq<char>, JsonView)>) -> Seq<(Seq<char>, WireView)>
    decreases members,
{
    if members.len() == 0 {
        Seq::empty()
    } else {
        let last = members[members.len() - 1];
        map_of(members.subrange(0, members.len() - 1)).push((last.0, value_of(last.1)))
    }
}

impl WireValue {
    /// The JSON of a value.
    pub fn to_json(&self) -> (r: Json)
        ensures
            r@ == json_of(self@),
    {
        json_of_value(self)
    }

    /// The value of a document.
    pub fn from_json(j: &Json) -> (r: WireValue)
        ensures
            r@ == value_of(j@),
    {
        value_of_json(j)
    }
}

fn json_of_value(v: &WireValue) -> (r: Json)
    ensures
        r@ == json_of(v@),
    decreases v,
{
    match v {
        WireValue::Bool(b) => Json::Bool(*b),
        WireValue::Int(i) => Json::Number(JsonNumber::of_i64(*i)),
        WireValue::Float(f) => if f.is_finite() {
            Json::Number(JsonNumber::Float(*f))
        } else {
            Json::Null
        },
        WireValue::String(s) => Json::String(s.clone()),
        WireValue::List(items) => Json::Array(array_of_values(items)),
        WireValue::Mapping(entries) => Json::Object(object_of_entries(entries)),
    }
}

fn array_of_values(items: &Vec<WireValue>) -> (r: Vec<Json>)
    ensures
        json::array_view(r@) == array_of(values_view(items@)),
    decreases items@,
{
    let mut out: Vec<Json> = Vec::new();
    let mut i: usize = 0;
    while i < items.len()
        invariant
            i <= items.len(),
            json::array_view(out@) == array_of(values_view(items@.take(i as int))),
        decreases items.len() - i,
    {
        proof {
            lemma_next_value(items@, i as int);
            let all = values_view(items@.take(i + 1));
            assert(all.subrange(0, all.len() - 1) =~= values_view(items@.take(i as int)));
        }
        let j = json_of_value(&items[i]);
        proof {
            json::lemma_push_item(out@, j);
        }
        out.push(j);
        i = i + 1;
    }
    assert(items@.take(i as int) =~= items@);
    out
}

/// The members of the object that entries are written as.
pub fn object_of_entries(entries: &Vec<(String, WireValue)>) -> (r: Vec<(String, Json)>)
    ensures
        json::object_view(r@) == object_of(entries_view(entries@)),
    decreases entries@,
{
    let mut out: Vec<(String, Json)> = Vec::new();
    let mut i: usize = 0;
    while i < entries.len()
        invariant
            i <= entries.len(),
            json::object_view(out@) == object_of(entries_view(entries@.take(i as int))),
        decreases entries.len() - i,
    {
        proof {
            lemma_next_entry(entries@, i as int);
            let all = entries_view(entries@.take(i + 1));
            assert(all.subrange(0, all.len() - 1) =~= entries_view(entries@.take(i as int)));
        }
        let e = (entries[i].0.clone(), json_of_value(&entries[i].1));
        proof {
            json::lemma_push_member(out@, e);
        }
        out.push(e);
        i = i + 1;
    }
    assert(entries@.take(i as int) =~= entries@);
    out
}

fn value_of_json(j: &Json) -> (r: WireValue)
    ensures
        r@ == value_of(j@),
    decreases j,
{
    match j {
        Json::Null => {
            proof {
                reveal_strlit("");
            }
            assert(""@ =~= Seq::<char>::empty());
            WireValue::String("".to_owned())
        },
        Json::Bool(b) => WireValue::Bool(*b),
        Json::Number(n) => match n.as_i64() {
            Some(i) => WireValue::Int(i),
            None => match n {
                JsonNumber::Float(f) => WireValue::Float(*f),
                JsonNumber::PosInt(u) => WireValue::Float(Float::nearest(*u)),
                JsonNumber::NegInt(i) => WireValue::Int(*i),
            },
        },
        Json::String(s) => WireValue::String(s.clone()),
        Json::Array(items) => WireValue::List(values_of_array(items)),
        Json::Object(members) => WireValue::Mapping(entries_of_object(members)),
    }
}

fn values_of_array(items: &Vec<Json>) -> (r: Vec<WireValue>)
    ensures
        values_view(r@) == list_of(json::array_view(items@)),
    decreases items@,
{
    let mut out: Vec<WireValue> = Vec::new();
    let mut i: usize = 0;
    while i < items.len()
        invariant
            i <= items.len(),
            values_view(out@) == list_of(json::array_view(items@.take(i as int))),
        decreases items.len() - i,
    {
        proof {
            json::lemma_next_item(items@, i as int);
            let all = json::array_view(items@.take(i + 1));
            assert(all.subrange(0, all.len() - 1) =~= json::array_view(items@.take(i as int)));
        }
        let v = value_of_json(&items[i]);
        proof {
            lemma_push_value(out@, v);
        }
        out.push(v);
        i = i + 1;
    }
    assert(items@.take(i as int) =~= items@);
    out
}

/// The entries that the members of an object stand for.
pub fn entries_of_object(members: &Vec<(String, Json)>) -> (r: Vec<(String, WireValue)>)
    ensures
        entries_view(r@) == map_of(json::object_view(members@)),
    decreases members@,
{
    let mut out: Vec<(String, WireValue)> = Vec::new();
    let mut i: usize = 0;
    while i < members.len()
        invariant
            i <= members.len(),
            entries_view(out@) == map_of(json::object_view(members@.take(i as int))),
        decreases members.len() - i,
    {
        proof {
            json::lemma_next_member(members@, i as int);
            let all = json::object_view(members@.take(i + 1));
            assert(all.subrange(0, all.len() - 1) =~= json::object_view(members@.take(i as int)));
        }
        let e = (members[i].0.clone(), value_of_json(&members[i].1));
        proof {
            lemma_push_entry(out@, e);
        }
        out.push(e);
        i = i + 1;
    }
    assert(members@.take(i as int) =~= members@);
    out
}

/// Every float in a value is finite.
pub open spec fn all_finite(v: WireView) -> bool
    decreases v,
{
    match v {
        WireView::Float(f) => value::float_finite(f),
        WireView::List(items) => forall|i: int| 0 <= i < items.len() ==> all_finite(#[trigger] items[i]),
        WireView::Mapping(entries) => forall|i: int| 0 <= i < entries.len() ==> all_finite((#[trigger] entries[i]).1),
        _ => true,
    }
}

/// A value without floats that are not finite comes back from its JSON.
pub proof fn law_value_round_trip(v: WireView)
    requires
        all_finite(v),
    ensures
        value_of(json_of(v)) == v,
    decreases v, 1nat,
{
    match v {
        WireView::List(items) => {
            lemma_items_come_back(items);
        },
        WireView::Mapping(entries) => {
            law_entries_round_trip(entries);
        },
        _ => {},
    }
}

proof fn lemma_items_come_back(items: Seq<WireView>)
    requires
        forall|i: int| 0 <= i < items.len() ==> all_finite(#[trigger] items[i]),
    ensures
        list_of(array_of(items)) == items,
    decreases items, 0nat,
{
    if items.len() > 0 {
        let before = items.subrange(0, items.len() - 1);
        assert forall|i: int| 0 <= i < before.len() implies all_finite(#[trigger] before[i]) by {
            assert(before[i] == items[i]);
        }
        lemma_items_come_back(before);
        law_value_round_trip(items[items.len() - 1]);
        let out = array_of(items);
        assert(out.subrange(0, out.len() - 1) =~= array_of(before));
        assert(before.push(items[items.len() - 1]) =~= items);
    }
}

/// Entries without floats that are not finite come back from the object that
/// they are written as.
pub proof fn law_entries_round_trip(entries: Seq<(Seq<char>, WireView)>)
    requires
        forall|i: int| 0 <= i < entries.len() ==> all_finite((#[trigger] entries[i]).1),
    ensures
        map_of(object_of(entries)) == entries,
    decreases entries, 0nat,
{
    if entries.len() > 0 {
        let before = entries.subrange(0, entries.len() - 1);
        assert forall|i: int| 0 <= i < before.len() implies all_finite((#[trigger] before[i]).1) by {
            assert(before[i] == entries[i]);
        }
        law_entries_round_trip(before);
        law_value_round_trip(entries[entries.len() - 1].1);
        let out = object_of(entries);
        assert(out.subrange(0, out.len() - 1) =~= object_of(before));
        assert(before.push(entries[entries.len() - 1]) =~= entries);
    }
}

} // verus!
