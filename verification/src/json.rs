//! JSON documents, and their text form.
use vstd::prelude::*;
use vstd::string::*;

use crate::keyed;
use crate::value::Float;

verus! {

/// A JSON number: whole numbers up to `u64::MAX`, negative whole numbers, and
/// all others.
#[derive(Debug, Clone, Copy, PartialEq, Eq, Structural)]
pub enum JsonNumber {
    PosInt(u64),
    NegInt(i64),
    Float(Float),
}

/// The number as a signed integer, where it is one.
pub open spec fn number_as_i64(n: JsonNumber) -> Option<i64> {
    match n {
        JsonNumber::PosInt(u) => if u <= 0x7fff_ffff_ffff_ffff {
            Some(u as i64)
        } else {
            None
        },
        JsonNumber::NegInt(i) => Some(i),
        JsonNumber::Float(_) => None,
    }
}

/// A signed integer as a JSON number.
pub open spec fn number_of_i64(i: i64) -> JsonNumber {
    if i < 0 {
        JsonNumber::NegInt(i)
    } else {
        JsonNumber::PosInt(i as u64)
    }
}

impl JsonNumber {
    pub fn as_i64(&self) -> (r: Option<i64>)
        ensures
            r == number_as_i64(*self),
    {
        match self {
            JsonNumber::PosInt(u) => if *u <= 0x7fff_ffff_ffff_ffff {
                Some(*u as i64)
            } else {
                None
            },
            JsonNumber::NegInt(i) => Some(*i),
            JsonNumber::Float(_) => None,
        }
    }

    pub fn of_i64(i: i64) -> (r: JsonNumber)
        ensures
            r == number_of_i64(i),
    {
        if i < 0 {
            JsonNumber::NegInt(i)
        } else {
            JsonNumber::PosInt(i as u64)
        }
    }
}

/// A JSON document. An object holds no key twice.
#[derive(Debug, PartialEq)]
pub enum Json {
    Null,
    Bool(bool),
    Number(JsonNumber),
    String(String),
    Array(Vec<Json>),
    Object(Vec<(String, Json)>),
}

/// A document with sequences in the place of strings and vectors.
pub enum JsonView {
    Null,
    Bool(bool),
    Number(JsonNumber),
    String(Seq<char>),
    Array(Seq<JsonView>),
    Object(Seq<(Seq<char>, JsonView)>),
}

pub open spec fn json_view(j: Json) -> JsonView
    decreases j,
{
    match j {
        Json::Null => JsonView::Null,
        Json::Bool(b) => JsonView::Bool(b),
        Json::Number(n) => JsonView::Number(n),
        Json::String(s) => JsonView::String(s@),
        Json::Array(items) => JsonView::Array(array_view(items@)),
        Json::Object(members) => JsonView::Object(object_view(members@)),
    }
}

pub open spec fn array_view(s: Seq<Json>) -> Seq<JsonView>
    decreases s,
{
    if s.len() == 0 {
        Seq::empty()
    } else {
        array_view(s.subrange(0, s.len() - 1)).push(json_view(s[s.len() - 1]))
    }
}

pub open spec fn object_view(s: Seq<(String, Json)>) -> Seq<(Seq<char>, JsonView)>
    decreases s,
{
    if s.len() == 0 {
        Seq::empty()
    } else {
        let last = s[s.len() - 1];
        object_view(s.subrange(0, s.len() - 1)).push((last.0@, json_view(last.1)))
    }
}

impl View for Json {
    type V = JsonView;

    open spec fn view(&self) -> JsonView {
        json_view(*self)
    }
}

/// The view of an optional document.
pub open spec fn opt_json(o: Option<Json>) -> Option<JsonView> {
    match o {
        Some(j) => Some(j@),
        None => None,
    }
}

pub proof fn lemma_array(s: Seq<Json>)
    ensures
        array_view(s).len() == s.len(),
        forall|i: int| 0 <= i < s.len() ==> #[trigger] array_view(s)[i] == json_view(s[i]),
    decreases s.len(),
{
    if s.len() > 0 {
        lemma_array(s.subrange(0, s.len() - 1));
    }
}

pub proof fn lemma_object(s: Seq<(String, Json)>)
    ensures
        object_view(s).len() == s.len(),
        forall|i: int| 0 <= i < s.len() ==> #[trigger] object_view(s)[i] == (s[i].0@, json_view(s[i].1)),
    decreases s.len(),
{
    if s.len() > 0 {
        lemma_object(s.subrange(0, s.len() - 1));
    }
}

pub proof fn lemma_push_item(s: Seq<Json>, j: Json)
    ensures
        array_view(s.push(j)) == array_view(s).push(json_view(j)),
{
    assert(s.push(j).subrange(0, s.len() as int) =~= s);
}

pub proof fn lemma_push_member(s: Seq<(String, Json)>, e: (String, Json))
    ensures
        object_view(s.push(e)) == object_view(s).push((e.0@, json_view(e.1))),
{
    assert(s.push(e).subrange(0, s.len() as int) =~= s);
}

pub proof fn lemma_next_item(s: Seq<Json>, i: int)
    requires
        0 <= i < s.len(),
    ensures
        array_view(s.take(i + 1)) == array_view(s.take(i)).push(json_view(s[i])),
{
    assert(s.take(i + 1) =~= s.take(i).push(s[i]));
    lemma_push_item(s.take(i), s[i]);
}

pub proof fn lemma_next_member(s: Seq<(String, Json)>, i: int)
    requires
        0 <= i < s.len(),
    ensures
        object_view(s.take(i + 1)) == object_view(s.take(i)).push((s[i].0@, json_view(s[i].1))),
{
    assert(s.take(i + 1) =~= s.take(i).push(s[i]));
    lemma_push_member(s.take(i), s[i]);
}

/// The member of an object under a key.
pub fn member<'a>(members: &'a Vec<(String, Json)>, key: &str) -> (r: Option<&'a Json>)
    ensures
        match r {
            Some(j) => keyed::lookup(object_view(members@), key@) == Some(j@),
            None => keyed::lookup(object_view(members@), key@) is None,
        },
{
    proof {
        lemma_object(members@);
        assert forall|i: int| 0 <= i < members@.len() implies (#[trigger] members@[i]).0@ == object_view(members@)[i].0 by {};
        keyed::lemma_position(members@, object_view(members@), key@, 0);
    }
    match keyed::position(members, key) {
        Some(i) => Some(&members[i].1),
        None => None,
    }
}

/// Puts a document under a key, in the place of the one that is there.
pub fn put_member(members: &mut Vec<(String, Json)>, key: String, j: Json)
    ensures
        object_view(final(members)@) == keyed::set(object_view(old(members)@), key@, j@),
{
    let ghost before = members@;
    let ghost e = (key, j);
    proof {
        lemma_object(members@);
        assert forall|i: int| 0 <= i < members@.len() implies (#[trigger] members@[i]).0@ == object_view(members@)[i].0 by {};
        keyed::lemma_position(members@, object_view(members@), key@, 0);
    }
    match keyed::position(members, key.as_str()) {
        Some(i) => {
            members.set(i, (key, j));
            proof {
                lemma_object(members@);
                assert(members@ =~= before.update(i as int, e));
                assert(object_view(members@) =~= object_view(before).update(i as int, (e.0@, e.1@)));
            }
        },
        None => {
            members.push((key, j));
            proof {
                lemma_push_member(before, e);
            }
        },
    }
}

/// The member of a document under a key, where the document is an object.
pub open spec fn view_member(j: JsonView, key: Seq<char>) -> Option<JsonView> {
    match j {
        JsonView::Object(members) => keyed::lookup(members, key),
        _ => None,
    }
}

/// The items of a document, where it is an array.
pub open spec fn view_items(j: JsonView) -> Option<Seq<JsonView>> {
    match j {
        JsonView::Array(items) => Some(items),
        _ => None,
    }
}

/// The text of a document, where it is a string.
pub open spec fn view_text(j: JsonView) -> Option<Seq<char>> {
    match j {
        JsonView::String(s) => Some(s),
        _ => None,
    }
}

impl Json {
    /// The member under a key, where the document is an object.
    pub fn get(&self, key: &str) -> (r: Option<&Json>)
        ensures
            match r {
                Some(j) => view_member(self@, key@) == Some(j@),
                None => view_member(self@, key@) is None,
            },
    {
        match self {
            Json::Object(members) => member(members, key),
            _ => None,
        }
    }

    /// The items, where the document is an array.
    pub fn as_array(&self) -> (r: Option<&Vec<Json>>)
        ensures
            match r {
                Some(items) => view_items(self@) == Some(array_view(items@)),
                None => view_items(self@) is None,
            },
    {
        match self {
            Json::Array(items) => Some(items),
            _ => None,
        }
    }

    /// The text, where the document is a string.
    pub fn as_str(&self) -> (r: Option<&str>)
        ensures
            match r {
                Some(s) => view_text(self@) == Some(s@),
                None => view_text(self@) is None,
            },
    {
        match self {
            Json::String(s) => Some(s.as_str()),
            _ => None,
        }
    }

    /// A string.
    pub fn text(s: &str) -> (r: Json)
        ensures
            r@ == JsonView::String(s@),
    {
        Json::String(s.to_owned())
    }
}

fn copy_items(items: &Vec<Json>) -> (r: Vec<Json>)
    ensures
        array_view(r@) == array_view(items@),
    decreases items@,
{
    let mut out: Vec<Json> = Vec::new();
    let mut i: usize = 0;
    assert(out@ =~= items@.take(0));
    while i < items.len()
        invariant
            i <= items.len(),
            array_view(out@) == array_view(items@.take(i as int)),
        decreases items.len() - i,
    {
        let j = copy_json(&items[i]);
        proof {
            lemma_push_item(out@, j);
            lemma_next_item(items@, i as int);
        }
        out.push(j);
        i = i + 1;
    }
    assert(items@.take(i as int) =~= items@);
    out
}

/// A copy of the members of an object.
pub fn copy_members(members: &Vec<(String, Json)>) -> (r: Vec<(String, Json)>)
    ensures
        object_view(r@) == object_view(members@),
    decreases members@,
{
    let mut out: Vec<(String, Json)> = Vec::new();
    let mut i: usize = 0;
    assert(out@ =~= members@.take(0));
    while i < members.len()
        invariant
            i <= members.len(),
            object_view(out@) == object_view(members@.take(i as int)),
        decreases members.len() - i,
    {
        let e = (members[i].0.clone(), copy_json(&members[i].1));
        proof {
            lemma_push_member(out@, e);
            lemma_next_member(members@, i as int);
        }
        out.push(e);
        i = i + 1;
    }
    assert(members@.take(i as int) =~= members@);
    out
}

/// A copy of a document.
pub fn copy_json(j: &Json) -> (r: Json)
    ensures
        r@ == j@,
    decreases j,
{
    match j {
        Json::Null => Json::Null,
        Json::Bool(b) => Json::Bool(*b),
        Json::Number(n) => Json::Number(*n),
        Json::String(s) => Json::String(s.clone()),
        Json::Array(items) => Json::Array(copy_items(items)),
        Json::Object(members) => Json::Object(copy_members(members)),
    }
}

impl Clone for Json {
    fn clone(&self) -> (r: Self)
        ensures
            r@ == self@,
    {
        copy_json(self)
    }
}

/// `serde_json::Value`, as the parser hands it out.
#[verifier::external_type_specification]
#[verifier::external_body]
pub struct ExJsonValue(serde_json::Value);

/// What the text of a document means: the document, or the message of
/// `serde_json` for a text that is none.
pub uninterp spec fn parsed(text: Seq<char>) -> Result<JsonView, Seq<char>>;

/// `serde_json::Number`, as the parser hands it out.
#[verifier::external_type_specification]
#[verifier::external_body]
pub struct ExJsonNumber(serde_json::Number);

/// A `serde_json::Number` as a number, by `as_u64`, `as_i64` and `as_f64`.
/// Nothing is stated of it but through `parsed`.
#[verifier::external_body]
fn number_from_outside(n: serde_json::Number) -> JsonNumber {
    match (n.as_u64(), n.as_i64(), n.as_f64()) {
        (Some(u), _, _) => JsonNumber::PosInt(u),
        (None, Some(i), _) => JsonNumber::NegInt(i),
        (None, None, f) => JsonNumber::Float(Float { bits: f.unwrap_or_default().to_bits() }),
    }
}

/// A `serde_json::Value` as a document, variant by variant. Nothing is stated
/// of it but through `parsed`.
#[verifier::external_body]
fn from_outside(v: serde_json::Value) -> Json {
    match v {
        serde_json::Value::Null => Json::Null,
        serde_json::Value::Bool(b) => Json::Bool(b),
        serde_json::Value::Number(n) => Json::Number(number_from_outside(n)),
        serde_json::Value::String(s) => Json::String(s),
        serde_json::Value::Array(items) => Json::Array(items.into_iter().map(from_outside).collect()),
        serde_json::Value::Object(m) => Json::Object(m.into_iter().map(|(k, v)| (k, from_outside(v))).collect()),
    }
}

/// `serde_json::from_str` on a text. What it returns depends on the text alone
/// and is named `parsed`.
#[verifier::external_body]
pub(crate) fn parse(text: &str) -> (r: Result<Json, String>)
    ensures
        match r {
            Ok(j) => parsed(text@) == Ok::<JsonView, Seq<char>>(j@),
            Err(e) => parsed(text@) == Err::<JsonView, Seq<char>>(e@),
        },
{
    match serde_json::from_str::<serde_json::Value>(text) {
        Ok(v) => Ok(from_outside(v)),
        Err(e) => Err(e.to_string()),
    }
}

/// The view of a map of maps.
pub open spec fn maps_view(s: Seq<(String, Vec<(String, Json)>)>) -> Seq<(Seq<char>, Seq<(Seq<char>, JsonView)>)> {
    Seq::new(s.len(), |i: int| (s[i].0@, object_view(s[i].1@)))
}

/// A map of maps as a document.
pub open spec fn maps_json(m: Seq<(Seq<char>, Seq<(Seq<char>, JsonView)>)>) -> JsonView {
    JsonView::Object(Seq::new(m.len(), |i: int| (m[i].0, JsonView::Object(m[i].1))))
}

/// What a text means that is read as a map of maps of documents: the map, or the
/// message of `serde_json` for a text that is none.
pub uninterp spec fn parsed_maps(text: Seq<char>) -> Result<Seq<(Seq<char>, Seq<(Seq<char>, JsonView)>)>, Seq<char>>;

/// `serde_json::from_str` on a text, for a map of maps of `serde_json::Value`s.
/// What it returns depends on the text alone and is named `parsed_maps`. No key
/// of the map, and none of the maps in it, occurs twice.
#[verifier::external_body]
pub(crate) fn parse_maps(text: &str) -> (r: Result<Vec<(String, Vec<(String, Json)>)>, String>)
    ensures
        match r {
            Ok(m) => {
                &&& parsed_maps(text@) == Ok::<Seq<(Seq<char>, Seq<(Seq<char>, JsonView)>)>, Seq<char>>(maps_view(m@))
                &&& keyed::distinct_keys(maps_view(m@))
                &&& forall|i: int| 0 <= i < m@.len() ==> keyed::distinct_keys((#[trigger] maps_view(m@)[i]).1)
            },
            Err(e) => parsed_maps(text@) == Err::<Seq<(Seq<char>, Seq<(Seq<char>, JsonView)>)>, Seq<char>>(e@),
        },
{
    match serde_json::from_str::<std::collections::BTreeMap<String, std::collections::BTreeMap<String, serde_json::Value>>>(text) {
        Ok(m) => Ok(m.into_iter().map(|(k, a)| (k, a.into_iter().map(|(n, v)| (n, from_outside(v))).collect())).collect()),
        Err(e) => Err(e.to_string()),
    }
}

/// No number of a document is a float.
pub open spec fn float_free(j: JsonView) -> bool
    decreases j,
{
    match j {
        JsonView::Number(n) => !(n is Float),
        JsonView::Array(items) => forall|i: int| 0 <= i < items.len() ==> float_free(#[trigger] items[i]),
        JsonView::Object(members) => forall|i: int| 0 <= i < members.len() ==> float_free((#[trigger] members[i]).1),
        _ => true,
    }
}

/// Whether no number of a document is a float.
pub fn is_float_free(j: &Json) -> (r: bool)
    ensures
        r == float_free(j@),
    decreases j,
{
    match j {
        Json::Number(n) => match n {
            JsonNumber::Float(_) => false,
            _ => true,
        },
        Json::Array(items) => {
            let r = are_items_float_free(items);
            proof {
                let whole = JsonView::Array(array_view(items@));
                if !r {
                    let i = choose|i: int| 0 <= i < array_view(items@).len() && !float_free(#[trigger] array_view(items@)[i]);
                    assert(!float_free(whole->Array_0[i]));
                }
                assert(r == float_free(whole));
            }
            r
        },
        Json::Object(members) => {
            let r = are_members_float_free(members);
            proof {
                let whole = JsonView::Object(object_view(members@));
                if !r {
                    let i = choose|i: int|
                        0 <= i < object_view(members@).len() && !float_free((#[trigger] object_view(members@)[i]).1);
                    assert(!float_free(whole->Object_0[i].1));
                }
                assert(r == float_free(whole));
            }
            r
        },
        _ => true,
    }
}

fn are_items_float_free(items: &Vec<Json>) -> (r: bool)
    ensures
        r == forall|i: int| 0 <= i < array_view(items@).len() ==> float_free(#[trigger] array_view(items@)[i]),
    decreases items@,
{
    let ghost all = array_view(items@);
    proof {
        lemma_array(items@);
    }
    let mut i: usize = 0;
    while i < items.len()
        invariant
            i <= items.len(),
            all == array_view(items@),
            all.len() == items.len(),
            forall|k: int| 0 <= k < all.len() ==> #[trigger] all[k] == json_view(items@[k]),
            forall|k: int| 0 <= k < i ==> float_free(#[trigger] all[k]),
        decreases items.len() - i,
    {
        if !is_float_free(&items[i]) {
            assert(!float_free(all[i as int]));
            return false;
        }
        i = i + 1;
    }
    true
}

fn are_members_float_free(members: &Vec<(String, Json)>) -> (r: bool)
    ensures
        r == forall|i: int|
            0 <= i < object_view(members@).len() ==> float_free((#[trigger] object_view(members@)[i]).1),
    decreases members@,
{
    let ghost all = object_view(members@);
    proof {
        lemma_object(members@);
    }
    let mut i: usize = 0;
    while i < members.len()
        invariant
            i <= members.len(),
            all == object_view(members@),
            all.len() == members.len(),
            forall|k: int| 0 <= k < all.len() ==> #[trigger] all[k] == (members@[k].0@, json_view(members@[k].1)),
            forall|k: int| 0 <= k < i ==> float_free((#[trigger] all[k]).1),
        decreases members.len() - i,
    {
        if !is_float_free(&members[i].1) {
            assert(!float_free(all[i as int].1));
            return false;
        }
        i = i + 1;
    }
    true
}

/// A document without floats as a `serde_json::Value`, variant by variant.
/// Nothing is stated of it but through the results of what it is handed to.
#[verifier::external_body]
pub(crate) fn to_outside(j: &Json) -> serde_json::Value
    requires
        float_free(j@),
{
    match j {
        Json::Null | Json::Number(JsonNumber::Float(_)) => serde_json::Value::Null,
        Json::Bool(b) => serde_json::Value::Bool(*b),
        Json::Number(JsonNumber::PosInt(n)) => serde_json::Value::from(*n),
        Json::Number(JsonNumber::NegInt(n)) => serde_json::Value::from(*n),
        Json::String(s) => serde_json::Value::String(s.clone()),
        Json::Array(items) => serde_json::Value::Array(items.iter().map(to_outside).collect()),
        Json::Object(m) => serde_json::Value::Object(m.iter().map(|(k, v)| (k.clone(), to_outside(v))).collect()),
    }
}

/// Two documents are the same but for the order of the members of objects.
pub open spec fn same_json(a: JsonView, b: JsonView) -> bool
    decreases a,
{
    a == b || match (a, b) {
        (JsonView::Array(x), JsonView::Array(y)) => {
            &&& x.len() == y.len()
            &&& forall|i: int| 0 <= i < x.len() ==> same_json(#[trigger] x[i], y[i])
        },
        (JsonView::Object(x), JsonView::Object(y)) => {
            &&& forall|i: int|
                0 <= i < x.len() ==> {
                    &&& keyed::lookup(y, (#[trigger] x[i]).0) is Some
                    &&& same_json(x[i].1, keyed::lookup(y, x[i].0)->0)
                }
            &&& forall|i: int| 0 <= i < y.len() ==> keyed::lookup(x, (#[trigger] y[i]).0) is Some
        },
        _ => false,
    }
}

/// No object of a document holds a key twice.
pub open spec fn well_keyed(j: JsonView) -> bool
    decreases j,
{
    match j {
        JsonView::Array(items) => forall|i: int| 0 <= i < items.len() ==> well_keyed(#[trigger] items[i]),
        JsonView::Object(members) => {
            &&& keyed::distinct_keys(members)
            &&& forall|i: int| 0 <= i < members.len() ==> well_keyed((#[trigger] members[i]).1)
        },
        _ => true,
    }
}

/// Lists and objects stand within each other at most `n` deep.
pub open spec fn nested_within(j: JsonView, n: nat) -> bool
    decreases j,
{
    match j {
        JsonView::Array(items) => n > 0 && forall|i: int|
            0 <= i < items.len() ==> nested_within(#[trigger] items[i], (n - 1) as nat),
        JsonView::Object(members) => n > 0 && forall|i: int|
            0 <= i < members.len() ==> nested_within((#[trigger] members[i]).1, (n - 1) as nat),
        _ => true,
    }
}

/// Every number of a document is a whole number, in the one form that it has.
pub open spec fn all_whole(j: JsonView) -> bool
    decreases j,
{
    match j {
        JsonView::Number(JsonNumber::NegInt(i)) => i < 0,
        JsonView::Number(JsonNumber::Float(_)) => false,
        JsonView::Array(items) => forall|i: int| 0 <= i < items.len() ==> all_whole(#[trigger] items[i]),
        JsonView::Object(members) => forall|i: int| 0 <= i < members.len() ==> all_whole((#[trigger] members[i]).1),
        _ => true,
    }
}

/// A document that reads as it was written: the reader follows at most 127 lists
/// and objects into each other.
pub open spec fn reads_back(j: JsonView) -> bool {
    all_whole(j) && well_keyed(j) && nested_within(j, 127)
}

/// What reading a text gives is a document, but for the order of members.
pub open spec fn reads_as(text: Seq<char>, j: JsonView) -> bool {
    parsed(text) matches Ok(k) && same_json(j, k) && well_keyed(k)
}

/// What reading a text as a map of maps gives is a document, but for the order of
/// members.
pub open spec fn reads_as_maps(text: Seq<char>, j: JsonView) -> bool {
    parsed_maps(text) matches Ok(m) && same_json(j, maps_json(m)) && well_keyed(maps_json(m))
}

/// Every member is an object.
pub open spec fn holds_objects(members: Seq<(Seq<char>, JsonView)>) -> bool {
    forall|i: int| 0 <= i < members.len() ==> (#[trigger] members[i]).1 is Object
}

/// A document that is an object of objects.
pub open spec fn is_map_of_maps(j: JsonView) -> bool {
    j matches JsonView::Object(members) && holds_objects(members)
}

/// The text of a document without floats, on one line.
pub uninterp spec fn printed(j: JsonView) -> Seq<char>;

/// The text of a document without floats, indented.
pub uninterp spec fn printed_pretty(j: JsonView) -> Seq<char>;

/// `serde_json::Value::to_string` on a document without floats. The text depends
/// on the document alone and is named `printed`. Where no object holds a key
/// twice, and lists and objects are not nested deeper than the reader follows,
/// reading the text gives the document again, in which no object holds a key
/// twice; the order of members may be another.
#[verifier::external_body]
fn print_plain(j: &Json) -> (r: String)
    requires
        float_free(j@),
    ensures
        r@ == printed(j@),
        reads_back(j@) ==> reads_as(r@, j@),
{
    to_outside(j).to_string()
}

/// `serde_json::to_string_pretty` on a document without floats. The text depends
/// on the document alone and is named `printed_pretty`. Where the document is an
/// object of objects that holds no key twice and is not nested deeper than the
/// reader follows, reading the text as a map of maps, with a line end behind it
/// over which the reader passes, gives the document again, but for the order of
/// members.
#[verifier::external_body]
fn print_indented(j: &Json) -> (r: String)
    requires
        float_free(j@),
    ensures
        r@ == printed_pretty(j@),
        reads_back(j@) && is_map_of_maps(j@) ==> reads_as_maps(r@ + "\n"@, j@),
{
    serde_json::to_string_pretty(&to_outside(j)).unwrap_or_default()
}

impl Json {
    /// The text of a document on one line, unless it holds floats.
    pub fn to_text(&self) -> (r: Option<String>)
        ensures
            match r {
                Some(t) => float_free(self@) && t@ == printed(self@) && (reads_back(self@) ==> reads_as(t@, self@)),
                None => !float_free(self@),
            },
    {
        if is_float_free(self) {
            Some(print_plain(self))
        } else {
            None
        }
    }

    /// The text of a document, indented and with a line end, unless it holds
    /// floats.
    pub fn to_pretty_text(&self) -> (r: Option<String>)
        ensures
            match r {
                Some(t) => {
                    &&& float_free(self@)
                    &&& t@ == printed_pretty(self@) + "\n"@
                    &&& reads_back(self@) && is_map_of_maps(self@) ==> reads_as_maps(t@, self@)
                },
                None => !float_free(self@),
            },
    {
        if is_float_free(self) {
            let mut t = print_indented(self);
            t.append("\n");
            Some(t)
        } else {
            None
        }
    }
}

} // verus!
