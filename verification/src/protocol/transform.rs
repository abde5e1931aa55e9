//! How a value of an enum is spelled in the configuration language, as data
//! that crosses the boundary.
use vstd::prelude::*;
use vstd::string::*;

use crate::json;
use crate::json::{Json, JsonView};
use crate::keyed;
use crate::text;

verus! {

/// How a value is spelled.
#[derive(Debug, PartialEq)]
pub enum DslTransform {
    Identity,
    HyphenToUnderscore,
    StripSuffix(String),
    ReplaceTable(Vec<(String, String)>),
    /// A transform of a later version. It is kept as it came and does nothing.
    Unknown(Json),
}

pub enum TransformView {
    Identity,
    HyphenToUnderscore,
    StripSuffix(Seq<char>),
    ReplaceTable(Seq<(Seq<char>, Seq<char>)>),
    Unknown(JsonView),
}

/// The pairs of a table.
pub open spec fn pairs_view(s: Seq<(String, String)>) -> Seq<(Seq<char>, Seq<char>)> {
    Seq::new(s.len(), |i: int| (s[i].0@, s[i].1@))
}

impl View for DslTransform {
    type V = TransformView;

    open spec fn view(&self) -> TransformView {
        match *self {
            DslTransform::Identity => TransformView::Identity,
            DslTransform::HyphenToUnderscore => TransformView::HyphenToUnderscore,
            DslTransform::StripSuffix(s) => TransformView::StripSuffix(s@),
            DslTransform::ReplaceTable(t) => TransformView::ReplaceTable(pairs_view(t@)),
            DslTransform::Unknown(j) => TransformView::Unknown(j@),
        }
    }
}

/// The spelling of a value.
pub open spec fn transformed(t: TransformView, s: Seq<char>) -> Seq<char> {
    match t {
        TransformView::Identity => s,
        TransformView::Unknown(_) => s,
        TransformView::HyphenToUnderscore => text::swapped(s, '-', '_'),
        TransformView::StripSuffix(suffix) => match text::before_suffix(s, suffix) {
            Some(rest) => rest,
            None => s,
        },
        TransformView::ReplaceTable(table) => match keyed::lookup(table, s) {
            Some(other) => other,
            None => s,
        },
    }
}

/// The JSON of a pair.
pub open spec fn pair_json(p: (Seq<char>, Seq<char>)) -> JsonView {
    JsonView::Array(Seq::empty().push(JsonView::String(p.0)).push(JsonView::String(p.1)))
}

/// The JSON of a table.
pub open spec fn table_json(table: Seq<(Seq<char>, Seq<char>)>) -> Seq<JsonView> {
    table.map_values(|p: (Seq<char>, Seq<char>)| pair_json(p))
}

/// An object with a tag.
pub open spec fn tagged(tag: Seq<char>) -> Seq<(Seq<char>, JsonView)> {
    Seq::empty().push(("type"@, JsonView::String(tag)))
}

/// The JSON of a transform.
pub open spec fn json_of(t: TransformView) -> JsonView {
    match t {
        TransformView::Identity => JsonView::Object(tagged("Identity"@)),
        TransformView::HyphenToUnderscore => JsonView::Object(tagged("HyphenToUnderscore"@)),
        TransformView::StripSuffix(s) => JsonView::Object(
            tagged("StripSuffix"@).push(("value"@, JsonView::String(s))),
        ),
        TransformView::ReplaceTable(table) => JsonView::Object(
            tagged("ReplaceTable"@).push(("value"@, JsonView::Array(table_json(table)))),
        ),
        TransformView::Unknown(j) => j,
    }
}

/// The pair that a document stands for: an array of two strings.
pub open spec fn pair_of(j: JsonView) -> Option<(Seq<char>, Seq<char>)> {
    match j {
        JsonView::Array(items) => if items.len() == 2 {
            match (json::view_text(items[0]), json::view_text(items[1])) {
                (Some(a), Some(b)) => Some((a, b)),
                _ => None,
            }
        } else {
            None
        },
        _ => None,
    }
}

/// The pairs that documents stand for, where each stands for one.
pub open spec fn pairs_of(items: Seq<JsonView>) -> Option<Seq<(Seq<char>, Seq<char>)>>
    decreases items.len(),
{
    if items.len() == 0 {
        Some(Seq::empty())
    } else {
        match (pairs_of(items.drop_last()), pair_of(items.last())) {
            (Some(before), Some(p)) => Some(before.push(p)),
            _ => None,
        }
    }
}

/// What `serde_json` says of a document without floats that is not a text.
pub uninterp spec fn text_refusal(j: JsonView) -> Seq<char>;

/// What `serde_json` says of a document without floats that is not a list of pairs
/// of texts.
pub uninterp spec fn table_refusal(j: JsonView) -> Seq<char>;

/// `serde_json::from_value` for a `String`. It takes texts and nothing else; what
/// it says of another document depends on the document alone and is named
/// `text_refusal`.
#[verifier::external_body]
fn outside_text(j: &Json) -> (r: Result<String, String>)
    requires
        json::float_free(j@),
    ensures
        match r {
            Ok(s) => j@ == JsonView::String(s@),
            Err(e) => !(j@ is String) && e@ == text_refusal(j@),
        },
{
    serde_json::from_value::<String>(json::to_outside(j)).map_err(|e| e.to_string())
}

/// `serde_json::from_value` for a list of pairs of `String`s. It takes lists of
/// lists of two texts and nothing else; what it says of another document depends
/// on the document alone and is named `table_refusal`.
#[verifier::external_body]
fn outside_table(j: &Json) -> (r: Result<Vec<(String, String)>, String>)
    requires
        json::float_free(j@),
    ensures
        match r {
            Ok(t) => table_of(j@) == Some(pairs_view(t@)),
            Err(e) => table_of(j@) is None && e@ == table_refusal(j@),
        },
{
    serde_json::from_value::<Vec<(String, String)>>(json::to_outside(j)).map_err(|e| e.to_string())
}

/// The table that a document stands for, if it stands for one.
pub open spec fn table_of(j: JsonView) -> Option<Seq<(Seq<char>, Seq<char>)>> {
    match j {
        JsonView::Array(items) => pairs_of(items),
        _ => None,
    }
}

/// A document as a reader sees it that expects something else: of a list or an
/// object, that it is one.
pub open spec fn shell(j: JsonView) -> JsonView {
    match j {
        JsonView::Array(_) => JsonView::Array(Seq::empty()),
        JsonView::Object(_) => JsonView::Object(Seq::empty()),
        _ => j,
    }
}

/// What is said of a float where something else is expected.
pub open spec fn float_refusal(expected: Seq<char>) -> Seq<char> {
    "invalid type: floating point number, expected "@ + expected
}

/// What is said of a document that is not a text.
pub open spec fn suffix_refusal(j: JsonView) -> Seq<char> {
    if json::float_free(shell(j)) {
        text_refusal(shell(j))
    } else {
        float_refusal("a string"@)
    }
}

/// The first item from `i` on that is not a pair of texts.
pub open spec fn first_odd(items: Seq<JsonView>, i: int) -> Option<int>
    decreases items.len() - i,
{
    if i < 0 || i >= items.len() {
        None
    } else if pair_of(items[i]) is None {
        Some(i)
    } else {
        first_odd(items, i + 1)
    }
}

/// A list as a reader sees it that expects two texts: it looks at the second item
/// only if the first is a text, and of the rest it sees how many there are.
pub open spec fn seen_pair(items: Seq<JsonView>) -> Seq<JsonView> {
    Seq::new(
        items.len(),
        |i: int|
            if i == 0 || (i == 1 && items[0] is String) {
                shell(items[i])
            } else {
                JsonView::Null
            },
    )
}

/// A document as a reader sees it that expects a pair of texts.
pub open spec fn seen_item(j: JsonView) -> JsonView {
    match j {
        JsonView::Array(items) => JsonView::Array(seen_pair(items)),
        _ => shell(j),
    }
}

/// A document as a reader sees it that expects a list of pairs of texts: it stops
/// at the first item that is not one.
pub open spec fn seen_table(j: JsonView) -> JsonView {
    match j {
        JsonView::Array(items) => match first_odd(items, 0) {
            Some(n) => JsonView::Array(items.take(n).push(seen_item(items[n]))),
            None => j,
        },
        _ => shell(j),
    }
}

/// What a reader of a list of pairs of texts expects where it stops.
pub open spec fn expected_in_table(j: JsonView) -> Seq<char> {
    match j {
        JsonView::Array(items) => match first_odd(items, 0) {
            Some(n) => if items[n] is Array {
                "a string"@
            } else {
                "a tuple of size 2"@
            },
            None => "a sequence"@,
        },
        _ => "a sequence"@,
    }
}

/// What is said of a document that is not a list of pairs of texts.
pub open spec fn replacements_refusal(j: JsonView) -> Seq<char> {
    if json::float_free(seen_table(j)) {
        table_refusal(seen_table(j))
    } else {
        float_refusal(expected_in_table(j))
    }
}

/// The transform that a document stands for, or what is wrong with it.
pub open spec fn transform_of(j: JsonView) -> Result<TransformView, Seq<char>> {
    match json::view_member(j, "type"@) {
        Some(JsonView::String(tag)) => {
            let body = json::view_member(j, "value"@);
            if tag == "Identity"@ {
                Ok(TransformView::Identity)
            } else if tag == "HyphenToUnderscore"@ {
                Ok(TransformView::HyphenToUnderscore)
            } else if tag == "StripSuffix"@ {
                match body {
                    Some(JsonView::String(s)) => Ok(TransformView::StripSuffix(s)),
                    Some(m) => Err(suffix_refusal(m)),
                    None => Err("StripSuffix missing `value`"@),
                }
            } else if tag == "ReplaceTable"@ {
                match body {
                    Some(m) => match table_of(m) {
                        Some(table) => Ok(TransformView::ReplaceTable(table)),
                        None => Err(replacements_refusal(m)),
                    },
                    None => Err("ReplaceTable missing `value`"@),
                }
            } else {
                Ok(TransformView::Unknown(j))
            }
        },
        _ => Err("DslTransform missing string `type` tag"@),
    }
}

/// An object with a tag.
pub fn make_tagged(tag: &str) -> (r: Vec<(String, Json)>)
    ensures
        json::object_view(r@) == tagged(tag@),
{
    let mut members: Vec<(String, Json)> = Vec::new();
    let t = ("type".to_owned(), Json::text(tag));
    proof {
        json::lemma_push_member(members@, t);
    }
    members.push(t);
    members
}

fn add_value(members: &mut Vec<(String, Json)>, j: Json)
    ensures
        json::object_view(final(members)@) == json::object_view(old(members)@).push(("value"@, j@)),
{
    let v = ("value".to_owned(), j);
    proof {
        json::lemma_push_member(members@, v);
    }
    members.push(v);
}

fn make_pair(a: &str, b: &str) -> (r: Json)
    ensures
        r@ == pair_json((a@, b@)),
{
    let mut items: Vec<Json> = Vec::new();
    let x = Json::text(a);
    let y = Json::text(b);
    proof {
        json::lemma_push_item(items@, x);
        json::lemma_push_item(items@.push(x), y);
    }
    items.push(x);
    items.push(y);
    Json::Array(items)
}

/// The JSON of a table.
pub fn make_table(table: &Vec<(String, String)>) -> (r: Vec<Json>)
    ensures
        json::array_view(r@) == table_json(pairs_view(table@)),
{
    let ghost goal = table_json(pairs_view(table@));
    let mut out: Vec<Json> = Vec::new();
    let mut i: usize = 0;
    assert(goal.take(0) =~= Seq::empty());
    while i < table.len()
        invariant
            i <= table.len(),
            goal == table_json(pairs_view(table@)),
            json::array_view(out@) == goal.take(i as int),
        decreases table.len() - i,
    {
        let j = make_pair(table[i].0.as_str(), table[i].1.as_str());
        proof {
            json::lemma_push_item(out@, j);
            assert(goal.take(i + 1) =~= goal.take(i as int).push(goal[i as int]));
        }
        out.push(j);
        i = i + 1;
    }
    assert(goal.take(i as int) =~= goal);
    out
}

fn read_pair(j: &Json) -> (r: Option<(String, String)>)
    ensures
        match r {
            Some(p) => pair_of(j@) == Some((p.0@, p.1@)),
            None => pair_of(j@) is None,
        },
{
    match j {
        Json::Array(items) => {
            proof {
                json::lemma_array(items@);
            }
            if items.len() == 2 {
                match (items[0].as_str(), items[1].as_str()) {
                    (Some(a), Some(b)) => Some((a.to_owned(), b.to_owned())),
                    _ => None,
                }
            } else {
                None
            }
        },
        _ => None,
    }
}

proof fn lemma_pairs_prefix(items: Seq<JsonView>, i: int)
    requires
        0 <= i <= items.len(),
    ensures
        pairs_of(items) is Some ==> pairs_of(items.take(i)) is Some,
    decreases items.len() - i,
{
    if i < items.len() {
        lemma_pairs_prefix(items, i + 1);
        assert(items.take(i + 1).drop_last() =~= items.take(i));
    } else {
        assert(items.take(i) =~= items);
    }
}

/// The pairs that documents stand for.
pub fn read_table(items: &Vec<Json>) -> (r: Option<Vec<(String, String)>>)
    ensures
        match r {
            Some(t) => pairs_of(json::array_view(items@)) == Some(pairs_view(t@)),
            None => pairs_of(json::array_view(items@)) is None,
        },
{
    let ghost all = json::array_view(items@);
    let mut out: Vec<(String, String)> = Vec::new();
    let mut i: usize = 0;
    proof {
        json::lemma_array(items@);
    }
    assert(pairs_view(out@) =~= Seq::empty());
    assert(all.take(0).len() == 0);
    while i < items.len()
        invariant
            i <= items.len(),
            all.len() == items.len(),
            all == json::array_view(items@),
            forall|k: int| 0 <= k < all.len() ==> #[trigger] all[k] == json::json_view(items@[k]),
            pairs_of(all.take(i as int)) == Some(pairs_view(out@)),
        decreases items.len() - i,
    {
        let ghost before = pairs_view(out@);
        proof {
            assert(all.take(i + 1).drop_last() =~= all.take(i as int));
            assert(all.take(i + 1).last() == items@[i as int]@);
            lemma_pairs_prefix(all, i + 1);
        }
        match read_pair(&items[i]) {
            Some(p) => {
                let ghost view = (p.0@, p.1@);
                out.push(p);
                assert(pairs_view(out@) =~= before.push(view));
            },
            None => return None,
        }
        i = i + 1;
    }
    assert(all.take(i as int) =~= all);
    Some(out)
}

fn refuse_float(expected: &str) -> (r: String)
    ensures
        r@ == float_refusal(expected@),
{
    let mut s = "invalid type: floating point number, expected ".to_owned();
    s.append(expected);
    s
}

fn shell_of(j: &Json) -> (r: Json)
    ensures
        r@ == shell(j@),
{
    match j {
        Json::Array(_) => Json::Array(Vec::new()),
        Json::Object(_) => Json::Object(Vec::new()),
        _ => j.clone(),
    }
}

/// The suffix that a document stands for, or what is wrong with it.
fn read_suffix(j: &Json) -> (r: Result<String, String>)
    ensures
        match r {
            Ok(s) => j@ == JsonView::String(s@),
            Err(e) => !(j@ is String) && e@ == suffix_refusal(j@),
        },
{
    let seen = shell_of(j);
    if json::is_float_free(&seen) {
        outside_text(&seen)
    } else {
        Err(refuse_float("a string"))
    }
}

/// A list is one of pairs exactly when no item of it is odd.
proof fn lemma_odd(items: Seq<JsonView>, i: int)
    requires
        0 <= i,
    ensures
        match first_odd(items, i) {
            Some(n) => {
                &&& i <= n < items.len()
                &&& pair_of(items[n]) is None
                &&& forall|k: int| i <= k < n ==> pair_of(#[trigger] items[k]) is Some
            },
            None => forall|k: int| i <= k < items.len() ==> pair_of(#[trigger] items[k]) is Some,
        },
    decreases items.len() - i,
{
    if i < items.len() {
        lemma_odd(items, i + 1);
    }
}

proof fn lemma_pairs(items: Seq<JsonView>)
    ensures
        pairs_of(items) is Some <==> (forall|k: int| 0 <= k < items.len() ==> pair_of(#[trigger] items[k]) is Some),
        pairs_of(items) is Some ==> json::float_free(JsonView::Array(items)),
    decreases items.len(),
{
    if items.len() > 0 {
        let before = items.drop_last();
        lemma_pairs(before);
        assert(items.last() == items[items.len() - 1]);
        if pairs_of(items) is Some {
            assert forall|k: int| 0 <= k < items.len() implies pair_of(#[trigger] items[k]) is Some by {
                if k < before.len() {
                    assert(before[k] == items[k]);
                }
            }
            assert forall|k: int| 0 <= k < items.len() implies json::float_free(#[trigger] items[k]) by {
                lemma_pair_holds_no_float(items[k]);
            }
        } else if forall|k: int| 0 <= k < items.len() ==> pair_of(#[trigger] items[k]) is Some {
            assert forall|k: int| 0 <= k < before.len() implies pair_of(#[trigger] before[k]) is Some by {
                assert(before[k] == items[k]);
            }
            assert(pair_of(items[items.len() - 1]) is Some);
        }
    }
}

proof fn lemma_pair_holds_no_float(j: JsonView)
    requires
        pair_of(j) is Some,
    ensures
        json::float_free(j),
{
    assert forall|k: int| 0 <= k < j->Array_0.len() implies json::float_free(#[trigger] j->Array_0[k]) by {}
}

/// What is seen of an item that is not a pair is not one either.
proof fn lemma_seen_item(j: JsonView)
    requires
        pair_of(j) is None,
    ensures
        pair_of(seen_item(j)) is None,
{
}

fn find_odd(items: &Vec<Json>) -> (r: Option<usize>)
    ensures
        match r {
            Some(n) => n < items.len() && first_odd(json::array_view(items@), 0) == Some(n as int),
            None => first_odd(json::array_view(items@), 0) is None,
        },
{
    let ghost all = json::array_view(items@);
    proof {
        json::lemma_array(items@);
    }
    let mut i: usize = 0;
    while i < items.len()
        invariant
            i <= items.len(),
            all == json::array_view(items@),
            all.len() == items.len(),
            forall|k: int| 0 <= k < all.len() ==> #[trigger] all[k] == json::json_view(items@[k]),
            first_odd(all, 0) == first_odd(all, i as int),
        decreases items.len() - i,
    {
        assert(all[i as int] == items@[i as int]@);
        if read_pair(&items[i]).is_none() {
            return Some(i);
        }
        i = i + 1;
    }
    None
}

fn see_pair(items: &Vec<Json>) -> (r: Vec<Json>)
    ensures
        json::array_view(r@) == seen_pair(json::array_view(items@)),
{
    let ghost all = json::array_view(items@);
    let ghost goal = seen_pair(all);
    proof {
        json::lemma_array(items@);
    }
    let mut out: Vec<Json> = Vec::new();
    let mut i: usize = 0;
    assert(goal.take(0) =~= Seq::empty());
    while i < items.len()
        invariant
            i <= items.len(),
            all == json::array_view(items@),
            goal == seen_pair(all),
            all.len() == items.len(),
            forall|k: int| 0 <= k < all.len() ==> #[trigger] all[k] == json::json_view(items@[k]),
            json::array_view(out@) == goal.take(i as int),
        decreases items.len() - i,
    {
        assert(all[i as int] == items@[i as int]@);
        assert(all[0] == items@[0]@);
        let j = if i == 0 || (i == 1 && items[0].as_str().is_some()) {
            shell_of(&items[i])
        } else {
            Json::Null
        };
        proof {
            json::lemma_push_item(out@, j);
            assert(goal.take(i + 1) =~= goal.take(i as int).push(goal[i as int]));
        }
        out.push(j);
        i = i + 1;
    }
    assert(goal.take(i as int) =~= goal);
    out
}

fn see_item(j: &Json) -> (r: Json)
    ensures
        r@ == seen_item(j@),
{
    match j {
        Json::Array(items) => Json::Array(see_pair(items)),
        _ => shell_of(j),
    }
}

/// A document that is not a list of pairs, as a reader sees it.
fn see_table(items: &Vec<Json>, n: usize) -> (r: Json)
    requires
        n < items.len(),
    ensures
        r@ == JsonView::Array(
            json::array_view(items@).take(n as int).push(seen_item(json::array_view(items@)[n as int])),
        ),
{
    let ghost all = json::array_view(items@);
    proof {
        json::lemma_array(items@);
    }
    let mut out: Vec<Json> = Vec::new();
    let mut i: usize = 0;
    assert(all.take(0) =~= Seq::empty());
    while i < n
        invariant
            i <= n < items.len(),
            all == json::array_view(items@),
            all.len() == items.len(),
            forall|k: int| 0 <= k < all.len() ==> #[trigger] all[k] == json::json_view(items@[k]),
            json::array_view(out@) == all.take(i as int),
        decreases n - i,
    {
        let j = items[i].clone();
        proof {
            json::lemma_push_item(out@, j);
            assert(all[i as int] == items@[i as int]@);
            assert(all.take(i + 1) =~= all.take(i as int).push(all[i as int]));
        }
        out.push(j);
        i = i + 1;
    }
    let last = see_item(&items[n]);
    proof {
        json::lemma_push_item(out@, last);
        assert(all[n as int] == items@[n as int]@);
    }
    out.push(last);
    Json::Array(out)
}

/// What is said of a document that is seen in place of one that is not a list of
/// pairs.
fn refuse_table(seen: &Json, expected: &str) -> (r: String)
    requires
        table_of(seen@) is None,
    ensures
        r@ == if json::float_free(seen@) {
            table_refusal(seen@)
        } else {
            float_refusal(expected@)
        },
{
    if json::is_float_free(seen) {
        match outside_table(seen) {
            Ok(_) => "".to_owned(),
            Err(e) => e,
        }
    } else {
        refuse_float(expected)
    }
}

/// The table that a document stands for, or what is wrong with it.
fn read_replacements(j: &Json) -> (r: Result<Vec<(String, String)>, String>)
    ensures
        match r {
            Ok(t) => table_of(j@) == Some(pairs_view(t@)),
            Err(e) => table_of(j@) is None && e@ == replacements_refusal(j@),
        },
{
    match j {
        Json::Array(items) => {
            let ghost all = json::array_view(items@);
            proof {
                json::lemma_array(items@);
                lemma_odd(all, 0);
                lemma_pairs(all);
            }
            match find_odd(items) {
                None => outside_table(j),
                Some(n) => {
                    let seen = see_table(items, n);
                    proof {
                        let shown = seen@->Array_0;
                        lemma_seen_item(all[n as int]);
                        lemma_pairs(shown);
                        assert(shown[n as int] == seen_item(all[n as int]));
                    }
                    let expected = match items[n] {
                        Json::Array(_) => "a string",
                        _ => "a tuple of size 2",
                    };
                    Err(refuse_table(&seen, expected))
                },
            }
        },
        _ => Err(refuse_table(&shell_of(j), "a sequence")),
    }
}

impl DslTransform {
    /// The spelling of a value.
    pub fn apply(&self, s: &str) -> (r: String)
        ensures
            r@ == transformed(self@, s@),
    {
        match self {
            DslTransform::Identity => s.to_owned(),
            DslTransform::Unknown(_) => s.to_owned(),
            DslTransform::HyphenToUnderscore => text::swap_char(s, '-', '_'),
            DslTransform::StripSuffix(suffix) => match text::strip_suffix(s, suffix.as_str()) {
                Some(rest) => rest.to_owned(),
                None => s.to_owned(),
            },
            DslTransform::ReplaceTable(table) => {
                proof {
                    let m = pairs_view(table@);
                    assert forall|i: int| 0 <= i < table@.len() implies (#[trigger] table@[i]).0@ == m[i].0 by {};
                    keyed::lemma_position(table@, m, s@, 0);
                }
                match keyed::position(table, s) {
                    Some(i) => table[i].1.clone(),
                    None => s.to_owned(),
                }
            },
        }
    }

    /// The JSON of a transform.
    pub fn to_json(&self) -> (r: Json)
        ensures
            r@ == json_of(self@),
    {
        match self {
            DslTransform::Identity => Json::Object(make_tagged("Identity")),
            DslTransform::HyphenToUnderscore => Json::Object(make_tagged("HyphenToUnderscore")),
            DslTransform::StripSuffix(s) => {
                let mut members = make_tagged("StripSuffix");
                add_value(&mut members, Json::String(s.clone()));
                Json::Object(members)
            },
            DslTransform::ReplaceTable(table) => {
                let mut members = make_tagged("ReplaceTable");
                add_value(&mut members, Json::Array(make_table(table)));
                Json::Object(members)
            },
            DslTransform::Unknown(j) => j.clone(),
        }
    }

    /// The transform that a document stands for.
    pub fn from_json(j: &Json) -> (r: Result<DslTransform, String>)
        ensures
            match r {
                Ok(t) => transform_of(j@) == Ok::<TransformView, Seq<char>>(t@),
                Err(e) => transform_of(j@) == Err::<TransformView, Seq<char>>(e@),
            },
    {
        let tag = match j.get("type") {
            Some(Json::String(s)) => s.as_str(),
            _ => return Err("DslTransform missing string `type` tag".to_owned()),
        };
        if text::same(tag, "Identity") {
            Ok(DslTransform::Identity)
        } else if text::same(tag, "HyphenToUnderscore") {
            Ok(DslTransform::HyphenToUnderscore)
        } else if text::same(tag, "StripSuffix") {
            match j.get("value") {
                Some(m) => match read_suffix(m) {
                    Ok(s) => Ok(DslTransform::StripSuffix(s)),
                    Err(e) => Err(e),
                },
                None => Err("StripSuffix missing `value`".to_owned()),
            }
        } else if text::same(tag, "ReplaceTable") {
            match j.get("value") {
                Some(m) => match read_replacements(m) {
                    Ok(table) => Ok(DslTransform::ReplaceTable(table)),
                    Err(e) => Err(e),
                },
                None => Err("ReplaceTable missing `value`".to_owned()),
            }
        } else {
            Ok(DslTransform::Unknown(j.clone()))
        }
    }
}

impl Clone for DslTransform {
    fn clone(&self) -> (r: Self)
        ensures
            r@ == self@,
    {
        match self {
            DslTransform::Identity => DslTransform::Identity,
            DslTransform::HyphenToUnderscore => DslTransform::HyphenToUnderscore,
            DslTransform::StripSuffix(s) => DslTransform::StripSuffix(s.clone()),
            DslTransform::ReplaceTable(t) => DslTransform::ReplaceTable(copy_pairs(t)),
            DslTransform::Unknown(j) => DslTransform::Unknown(j.clone()),
        }
    }
}

/// A copy of a list of pairs.
pub fn copy_pairs(pairs: &Vec<(String, String)>) -> (r: Vec<(String, String)>)
    ensures
        pairs_view(r@) == pairs_view(pairs@),
{
    let ghost all = pairs_view(pairs@);
    let mut out: Vec<(String, String)> = Vec::new();
    let mut i: usize = 0;
    assert(pairs_view(out@) =~= all.take(0));
    while i < pairs.len()
        invariant
            i <= pairs.len(),
            all == pairs_view(pairs@),
            pairs_view(out@) == all.take(i as int),
        decreases pairs.len() - i,
    {
        let ghost before = pairs_view(out@);
        out.push((pairs[i].0.clone(), pairs[i].1.clone()));
        assert(pairs_view(out@) =~= before.push(all[i as int]));
        assert(all.take(i + 1) =~= all.take(i as int).push(all[i as int]));
        i = i + 1;
    }
    assert(all.take(i as int) =~= all);
    out
}

/// A document that is kept as it came: it has a tag that no other transform has.
pub open spec fn foreign(j: JsonView) -> bool {
    match json::view_member(j, "type"@) {
        Some(JsonView::String(tag)) => {
            &&& tag != "Identity"@
            &&& tag != "HyphenToUnderscore"@
            &&& tag != "StripSuffix"@
            &&& tag != "ReplaceTable"@
        },
        _ => false,
    }
}

proof fn lemma_tags()
    ensures
        "type"@ != "value"@,
        "Identity"@ != "HyphenToUnderscore"@,
        "Identity"@ != "StripSuffix"@,
        "Identity"@ != "ReplaceTable"@,
        "HyphenToUnderscore"@ != "StripSuffix"@,
        "HyphenToUnderscore"@ != "ReplaceTable"@,
        "StripSuffix"@ != "ReplaceTable"@,
{
    reveal_strlit("type");
    reveal_strlit("value");
    reveal_strlit("Identity");
    reveal_strlit("HyphenToUnderscore");
    reveal_strlit("StripSuffix");
    reveal_strlit("ReplaceTable");
    assert("type"@.len() == 4 && "value"@.len() == 5);
    assert("Identity"@.len() == 8 && "HyphenToUnderscore"@.len() == 18);
    assert("StripSuffix"@.len() == 11 && "ReplaceTable"@.len() == 12);
}

/// Pairs come back from the list that they are written as.
pub proof fn lemma_pairs_come_back(table: Seq<(Seq<char>, Seq<char>)>)
    ensures
        pairs_of(table_json(table)) == Some(table),
    decreases table.len(),
{
    let items = table_json(table);
    if table.len() > 0 {
        lemma_pairs_come_back(table.drop_last());
        assert(items.drop_last() =~= table_json(table.drop_last()));
        assert(items.last() == pair_json(table.last()));
        assert(table.drop_last().push(table.last()) =~= table);
    } else {
        assert(table =~= Seq::empty());
    }
}

/// A transform comes back from its JSON; one of a later version is kept as it
/// came.
pub proof fn law_transform_round_trip(t: TransformView)
    requires
        t matches TransformView::Unknown(j) ==> foreign(j),
    ensures
        transform_of(json_of(t)) == Ok::<TransformView, Seq<char>>(t),
{
    lemma_tags();
    if let TransformView::ReplaceTable(table) = t {
        lemma_pairs_come_back(table);
    }
    reveal_with_fuel(keyed::index_from, 3);
}

/// A document of a later version is written as it was read, and spells every
/// value as it is.
pub proof fn law_later_versions_are_kept(j: JsonView, s: Seq<char>)
    requires
        foreign(j),
    ensures
        transform_of(j) matches Ok(t) && json_of(t) == j && transformed(t, s) == s,
{
}

} // verus!
