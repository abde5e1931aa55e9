//! Enum values that the description of a property lists.
use vstd::prelude::*;
use vstd::string::*;

use crate::text;

verus! {

/// Values between double backticks.
pub open spec fn backtick_pattern() -> Seq<char> {
    "``([^`]+)``"@
}

/// What follows `Valid values:` or `Options:` up to the end of the sentence.
pub open spec fn labelled_pattern() -> Seq<char> {
    "(?i)(?:valid values?|options?):\\s*([^\\n.]+)"@
}

/// What follows `options are`, `can be` or `either` up to the end of the sentence.
pub open spec fn prose_pattern() -> Seq<char> {
    "(?i)(?:options (?:here )?are|can be|either)\\s+(.+?)(?:\\.|\\n|$)"@
}

/// The patterns that are searched for. Each has one group, which takes part in
/// every match.
pub open spec fn is_enum_pattern(pattern: Seq<char>) -> bool {
    pattern == backtick_pattern() || pattern == labelled_pattern() || pattern == prose_pattern()
}

/// The first group of every match of a pattern in a text, in order; nothing if
/// the pattern is no regular expression.
pub uninterp spec fn group_of_each_match(pattern: Seq<char>, text: Seq<char>) -> Option<Seq<Seq<char>>>;

/// The first group of the first match of a pattern in a text, if there is a match.
pub uninterp spec fn group_of_first_match(pattern: Seq<char>, text: Seq<char>) -> Option<Seq<char>>;

/// `regex::Regex::captures_iter`, with the pattern compiled by `regex::Regex::new`.
/// What it finds depends on the pattern and the text alone; the texts of the
/// first groups are named `group_of_each_match`.
#[verifier::external_body]
fn each_match(pattern: &str, text: &str) -> (r: Option<Vec<String>>)
    requires
        is_enum_pattern(pattern@),
    ensures
        match r {
            Some(v) => group_of_each_match(pattern@, text@) == Some(text::strings(v@)),
            None => group_of_each_match(pattern@, text@) is None,
        },
{
    let re = regex::Regex::new(pattern).ok()?;
    Some(re.captures_iter(text).map(|cap| cap[1].to_string()).collect())
}

/// `regex::Regex::captures`, with the pattern compiled by `regex::Regex::new`.
/// What it finds depends on the pattern and the text alone; the text of the
/// first group is named `group_of_first_match`.
#[verifier::external_body]
fn first_match(pattern: &str, text: &str) -> (r: Option<String>)
    requires
        is_enum_pattern(pattern@),
    ensures
        text::opt_string(r) == group_of_first_match(pattern@, text@),
{
    let re = regex::Regex::new(pattern).ok()?;
    re.captures(text).map(|cap| cap[1].to_string())
}

/// A string in mixed case that begins with an upper case letter.
pub open spec fn reads_like_property(s: Seq<char>) -> bool {
    s.len() > 0 && text::is_upper(s[0]) && exists|i: int| 0 <= i < s.len() && text::is_lower(#[trigger] s[i])
}

/// Whether a string looks like the name of a property and not like an enum value.
pub fn looks_like_property_name(s: &str) -> (r: bool)
    ensures
        r == reads_like_property(s@),
{
    let v = text::chars_of(s);
    if v.len() == 0 {
        return false;
    }
    if !text::upper_char(v[0]) {
        return false;
    }
    let mut i: usize = 0;
    while i < v.len()
        invariant
            i <= v.len(),
            v@ == s@,
            s@.len() > 0,
            text::is_upper(s@[0]),
            forall|j: int| 0 <= j < i ==> !text::is_lower(#[trigger] s@[j]),
        decreases v.len() - i,
    {
        if text::lower_char(v[i]) {
            assert(text::is_lower(s@[i as int]));
            return true;
        }
        i = i + 1;
    }
    false
}

/// A string without spaces, braces and unicode escapes that takes at most fifty bytes.
pub open spec fn reads_like_enum_value(s: Seq<char>) -> bool {
    &&& s.len() > 0
    &&& !s.contains('{')
    &&& !s.contains('}')
    &&& !text::holds(s, "\\u"@)
    &&& text::byte_len(s) <= 50
    &&& !s.contains(' ')
}

fn has_char(s: &str, c: char) -> (r: bool)
    ensures
        r == s@.contains(c),
{
    let v = text::chars_of(s);
    let mut i: usize = 0;
    while i < v.len()
        invariant
            i <= v.len(),
            v@ == s@,
            forall|j: int| 0 <= j < i ==> s@[j] != c,
        decreases v.len() - i,
    {
        if v[i] == c {
            return true;
        }
        i = i + 1;
    }
    false
}

/// Whether a string looks like an enum value and not like a code example.
pub fn looks_like_enum_value(s: &str) -> (r: bool)
    ensures
        r == reads_like_enum_value(s@),
{
    if s.is_empty() {
        return false;
    }
    if has_char(s, '{') || has_char(s, '}') {
        return false;
    }
    if text::contains(s, "\\u") {
        return false;
    }
    if text::exceeds(s, 50) {
        return false;
    }
    !has_char(s, ' ')
}

/// The first occurrence of every value, in order.
pub open spec fn distinct(values: Seq<Seq<char>>) -> Seq<Seq<char>>
    decreases values.len(),
{
    if values.len() == 0 {
        Seq::empty()
    } else {
        let before = distinct(values.drop_last());
        if before.contains(values.last()) {
            before
        } else {
            before.push(values.last())
        }
    }
}

/// The distinct values of a list, if it holds at least two.
pub open spec fn at_least_two(values: Seq<Seq<char>>) -> Option<Seq<Seq<char>>> {
    if distinct(values).len() >= 2 {
        Some(distinct(values))
    } else {
        None
    }
}

/// The views of an optional list of strings.
pub open spec fn opt_strings(o: Option<Vec<String>>) -> Option<Seq<Seq<char>>> {
    match o {
        Some(v) => Some(text::strings(v@)),
        None => None,
    }
}

/// The distinct values of a list in order, if it holds at least two.
pub fn deduplicate_enum_values(values: Vec<String>) -> (r: Option<Vec<String>>)
    ensures
        opt_strings(r) == at_least_two(text::strings(values@)),
{
    let mut unique: Vec<String> = Vec::new();
    let mut i: usize = 0;
    let ghost all = text::strings(values@);
    while i < values.len()
        invariant
            i <= values.len(),
            all == text::strings(values@),
            text::strings(unique@) == distinct(all.take(i as int)),
        decreases values.len() - i,
    {
        proof {
            assert(all.take(i + 1).drop_last() =~= all.take(i as int));
            assert(all.take(i + 1).last() == values@[i as int]@);
        }
        if !text::listed(&unique, values[i].as_str()) {
            let ghost before = text::strings(unique@);
            unique.push(values[i].clone());
            assert(text::strings(unique@) =~= before.push(values@[i as int]@));
        }
        i = i + 1;
    }
    assert(all.take(i as int) =~= all);
    if unique.len() >= 2 {
        Some(unique)
    } else {
        None
    }
}

/// The values found between backticks that can be enum values.
pub open spec fn backtick_values(found: Seq<Seq<char>>) -> Seq<Seq<char>>
    decreases found.len(),
{
    if found.len() == 0 {
        Seq::empty()
    } else {
        let before = backtick_values(found.drop_last());
        if !reads_like_property(found.last()) && reads_like_enum_value(found.last()) {
            before.push(found.last())
        } else {
            before
        }
    }
}

fn keep_backtick_values(found: &Vec<String>) -> (r: Vec<String>)
    ensures
        text::strings(r@) == backtick_values(text::strings(found@)),
{
    let mut out: Vec<String> = Vec::new();
    let mut i: usize = 0;
    let ghost all = text::strings(found@);
    while i < found.len()
        invariant
            i <= found.len(),
            all == text::strings(found@),
            text::strings(out@) == backtick_values(all.take(i as int)),
        decreases found.len() - i,
    {
        proof {
            assert(all.take(i + 1).drop_last() =~= all.take(i as int));
            assert(all.take(i + 1).last() == found@[i as int]@);
        }
        let v = found[i].as_str();
        if !looks_like_property_name(v) && looks_like_enum_value(v) {
            let ghost before = text::strings(out@);
            out.push(found[i].clone());
            assert(text::strings(out@) =~= before.push(found@[i as int]@));
        }
        i = i + 1;
    }
    assert(all.take(i as int) =~= all);
    out
}

/// The trimmed pieces that are neither empty nor look like property names.
pub open spec fn trimmed_values(pieces: Seq<Seq<char>>) -> Seq<Seq<char>>
    decreases pieces.len(),
{
    if pieces.len() == 0 {
        Seq::empty()
    } else {
        let before = trimmed_values(pieces.drop_last());
        let value = text::trimmed(pieces.last());
        if value.len() > 0 && !reads_like_property(value) {
            before.push(value)
        } else {
            before
        }
    }
}

/// The values of a list whose items stand between pipes or, where there is no
/// pipe, between commas.
pub open spec fn labelled_values(list: Seq<char>) -> Seq<Seq<char>> {
    let inner = text::trimmed(list);
    if text::holds(inner, "|"@) {
        trimmed_values(text::split(inner, "|"@))
    } else if text::holds(inner, ","@) {
        trimmed_values(text::split(inner, ","@))
    } else {
        Seq::empty()
    }
}

fn keep_trimmed_values(pieces: &Vec<String>) -> (r: Vec<String>)
    ensures
        text::strings(r@) == trimmed_values(text::strings(pieces@)),
{
    let mut out: Vec<String> = Vec::new();
    let mut i: usize = 0;
    let ghost all = text::strings(pieces@);
    while i < pieces.len()
        invariant
            i <= pieces.len(),
            all == text::strings(pieces@),
            text::strings(out@) == trimmed_values(all.take(i as int)),
        decreases pieces.len() - i,
    {
        proof {
            assert(all.take(i + 1).drop_last() =~= all.take(i as int));
            assert(all.take(i + 1).last() == pieces@[i as int]@);
        }
        let value = text::trim(pieces[i].as_str());
        let keep = !value.as_str().is_empty() && !looks_like_property_name(value.as_str());
        if keep {
            let ghost before = text::strings(out@);
            let ghost v = value@;
            out.push(value);
            assert(text::strings(out@) =~= before.push(v));
        }
        i = i + 1;
    }
    assert(all.take(i as int) =~= all);
    out
}

fn read_labelled(list: &str) -> (r: Vec<String>)
    ensures
        text::strings(r@) == labelled_values(list@),
{
    proof {
        reveal_strlit("|");
        reveal_strlit(",");
    }
    let inner = text::trim(list);
    if text::contains(inner.as_str(), "|") {
        keep_trimmed_values(&text::split_on(inner.as_str(), "|"))
    } else if text::contains(inner.as_str(), ",") {
        keep_trimmed_values(&text::split_on(inner.as_str(), ","))
    } else {
        let r: Vec<String> = Vec::new();
        assert(text::strings(r@) =~= Seq::empty());
        r
    }
}

/// Where the explanation that follows a list of values begins: at the first
/// ` for `, or else the first ` when `, and so on down the line.
pub open spec fn explanation_at(list: Seq<char>) -> Option<int> {
    if text::first_from(list, " for "@, 0) is Some {
        text::first_from(list, " for "@, 0)
    } else if text::first_from(list, " when "@, 0) is Some {
        text::first_from(list, " when "@, 0)
    } else if text::first_from(list, " where "@, 0) is Some {
        text::first_from(list, " where "@, 0)
    } else if text::first_from(list, " by "@, 0) is Some {
        text::first_from(list, " by "@, 0)
    } else if text::first_from(list, " with "@, 0) is Some {
        text::first_from(list, " with "@, 0)
    } else {
        text::first_from(list, " that "@, 0)
    }
}

/// A list of values without the explanation that follows it.
pub open spec fn without_explanation(list: Seq<char>) -> Seq<char> {
    match explanation_at(list) {
        Some(i) => list.take(i),
        None => list,
    }
}

/// The values that one piece between commas holds: the piece itself, what
/// follows a leading `or`, or the alternatives around an inner `or`.
pub open spec fn piece_values(piece: Seq<char>) -> Seq<Seq<char>> {
    let part = text::trimmed(piece);
    if text::begins_with(part, "or "@) {
        seq![text::trimmed(part.skip("or "@.len() as int))]
    } else if text::holds(part, " or "@) {
        text::split(part, " or "@).map_values(|s: Seq<char>| text::trimmed(s))
    } else {
        seq![part]
    }
}

/// The values of all pieces, in order.
pub open spec fn pieces_values(pieces: Seq<Seq<char>>) -> Seq<Seq<char>>
    decreases pieces.len(),
{
    if pieces.len() == 0 {
        Seq::empty()
    } else {
        pieces_values(pieces.drop_last()) + piece_values(pieces.last())
    }
}

/// The values that are single words and do not look like property names.
pub open spec fn single_words(values: Seq<Seq<char>>) -> Seq<Seq<char>>
    decreases values.len(),
{
    if values.len() == 0 {
        Seq::empty()
    } else {
        let before = single_words(values.drop_last());
        let value = values.last();
        if value.len() > 0 && !reads_like_property(value) && !value.contains(' ') {
            before.push(value)
        } else {
            before
        }
    }
}

/// The values of a list written out in prose.
pub open spec fn prose_values(list: Seq<char>) -> Seq<Seq<char>> {
    single_words(pieces_values(text::split(without_explanation(text::trimmed(list)), ","@)))
}

fn read_piece(piece: &str) -> (r: Vec<String>)
    ensures
        text::strings(r@) == piece_values(piece@),
{
    proof {
        reveal_strlit(" or ");
        reveal_strlit("or ");
    }
    let part = text::trim(piece);
    if let Some(stripped) = text::strip_prefix(part.as_str(), "or ") {
        let r = vec![text::trim(stripped)];
        assert(text::strings(r@) =~= piece_values(piece@));
        r
    } else if text::contains(part.as_str(), " or ") {
        let subs = text::split_on(part.as_str(), " or ");
        let mut out: Vec<String> = Vec::new();
        let mut i: usize = 0;
        let ghost all = text::strings(subs@);
        while i < subs.len()
            invariant
                i <= subs.len(),
                all == text::strings(subs@),
                text::strings(out@) == all.take(i as int).map_values(|s: Seq<char>| text::trimmed(s)),
            decreases subs.len() - i,
        {
            let ghost before = text::strings(out@);
            let value = text::trim(subs[i].as_str());
            let ghost v = value@;
            out.push(value);
            proof {
                assert(text::strings(out@) =~= before.push(v));
                assert(all.take(i + 1) =~= all.take(i as int).push(subs@[i as int]@));
                assert(text::strings(out@) =~= all.take(i + 1).map_values(|s: Seq<char>| text::trimmed(s)));
            }
            i = i + 1;
        }
        assert(all.take(i as int) =~= all);
        out
    } else {
        let r = vec![part];
        assert(text::strings(r@) =~= piece_values(piece@));
        r
    }
}

fn read_prose(list: &str) -> (r: Vec<String>)
    ensures
        text::strings(r@) == prose_values(list@),
{
    proof {
        reveal_strlit(",");
    }
    let inner = text::trim(list);
    let cut = cut_explanation(inner.as_str());
    let pieces = text::split_on(cut, ",");
    let mut candidates: Vec<String> = Vec::new();
    let mut i: usize = 0;
    let ghost all = text::strings(pieces@);
    assert(text::strings(candidates@) =~= pieces_values(all.take(0)));
    while i < pieces.len()
        invariant
            i <= pieces.len(),
            all == text::strings(pieces@),
            text::strings(candidates@) == pieces_values(all.take(i as int)),
        decreases pieces.len() - i,
    {
        let mut values = read_piece(pieces[i].as_str());
        let ghost before = text::strings(candidates@);
        let ghost more = text::strings(values@);
        candidates.append(&mut values);
        proof {
            assert(text::strings(candidates@) =~= before + more);
            assert(all.take(i + 1).drop_last() =~= all.take(i as int));
            assert(all.take(i + 1).last() == pieces@[i as int]@);
        }
        i = i + 1;
    }
    assert(all.take(i as int) =~= all);
    let mut out: Vec<String> = Vec::new();
    let mut k: usize = 0;
    let ghost found = text::strings(candidates@);
    while k < candidates.len()
        invariant
            k <= candidates.len(),
            found == text::strings(candidates@),
            text::strings(out@) == single_words(found.take(k as int)),
        decreases candidates.len() - k,
    {
        proof {
            assert(found.take(k + 1).drop_last() =~= found.take(k as int));
            assert(found.take(k + 1).last() == candidates@[k as int]@);
        }
        let v = candidates[k].as_str();
        if !v.is_empty() && !looks_like_property_name(v) && !has_char(v, ' ') {
            let ghost before = text::strings(out@);
            out.push(candidates[k].clone());
            assert(text::strings(out@) =~= before.push(candidates@[k as int]@));
        }
        k = k + 1;
    }
    assert(found.take(k as int) =~= found);
    out
}

fn cut_explanation<'a>(list: &'a str) -> (r: &'a str)
    ensures
        r@ == without_explanation(list@),
{
    let at = match text::find(list, " for ") {
        Some(i) => Some(i),
        None => match text::find(list, " when ") {
            Some(i) => Some(i),
            None => match text::find(list, " where ") {
                Some(i) => Some(i),
                None => match text::find(list, " by ") {
                    Some(i) => Some(i),
                    None => match text::find(list, " with ") {
                        Some(i) => Some(i),
                        None => text::find(list, " that "),
                    },
                },
            },
        },
    };
    match at {
        Some(i) => {
            let r = list.substring_char(0, i);
            assert(r@ =~= list@.take(i as int));
            r
        },
        None => list,
    }
}

/// The enum values that a description holds, from what the three patterns
/// find in it. Values between backticks are preferred to a labelled list, and
/// that to a list in prose; a source counts if it gives at least two values.
pub open spec fn values_found(
    backticks: Option<Seq<Seq<char>>>,
    labelled: Option<Seq<char>>,
    prose: Option<Seq<char>>,
) -> Option<Seq<Seq<char>>> {
    if backticks is None {
        None
    } else if backtick_values(backticks->0).len() >= 2 {
        at_least_two(backtick_values(backticks->0))
    } else if labelled is Some && labelled_values(labelled->0).len() >= 2 {
        at_least_two(labelled_values(labelled->0))
    } else if prose is Some && prose_values(prose->0).len() >= 2 {
        at_least_two(prose_values(prose->0))
    } else {
        None
    }
}

/// The enum values in what the three patterns found in a description.
pub fn enum_from_matches(
    backticks: Option<Vec<String>>,
    labelled: Option<String>,
    prose: Option<String>,
) -> (r: Option<Vec<String>>)
    ensures
        opt_strings(r) == values_found(
            opt_strings(backticks),
            text::opt_string(labelled),
            text::opt_string(prose),
        ),
{
    match backticks {
        None => {
            return None;
        },
        Some(found) => {
            let values = keep_backtick_values(&found);
            assert(text::strings(values@).len() == values@.len());
            if values.len() >= 2 {
                return deduplicate_enum_values(values);
            }
        },
    }
    if let Some(list) = &labelled {
        let values = read_labelled(list.as_str());
        assert(text::strings(values@).len() == values@.len());
        if values.len() >= 2 {
            return deduplicate_enum_values(values);
        }
    }
    if let Some(list) = &prose {
        let values = read_prose(list.as_str());
        assert(text::strings(values@).len() == values@.len());
        if values.len() >= 2 {
            return deduplicate_enum_values(values);
        }
    }
    None
}

/// The enum values that a description holds, if it holds at least two.
pub open spec fn described_values(description: Seq<char>) -> Option<Seq<Seq<char>>> {
    values_found(
        group_of_each_match(backtick_pattern(), description),
        group_of_first_match(labelled_pattern(), description),
        group_of_first_match(prose_pattern(), description),
    )
}

/// The enum values that a description lists between double backticks, after a
/// label such as `Valid values:`, or in prose.
pub fn extract_enum_from_description(description: &str) -> (r: Option<Vec<String>>)
    ensures
        opt_strings(r) == described_values(description@),
{
    let backticks = each_match("``([^`]+)``", description);
    let labelled = first_match("(?i)(?:valid values?|options?):\\s*([^\\n.]+)", description);
    let prose = first_match(
        "(?i)(?:options (?:here )?are|can be|either)\\s+(.+?)(?:\\.|\\n|$)",
        description,
    );
    enum_from_matches(backticks, labelled, prose)
}

/// Deduplication keeps every value, each once, and no other.
pub proof fn law_distinct_values(values: Seq<Seq<char>>)
    ensures
        distinct(values).no_duplicates(),
        forall|v: Seq<char>| values.contains(v) <==> distinct(values).contains(v),
    decreases values.len(),
{
    if values.len() > 0 {
        law_distinct_values(values.drop_last());
        let before = distinct(values.drop_last());
        assert forall|v: Seq<char>| values.contains(v) <==> distinct(values).contains(v) by {
            if values.contains(v) {
                let i = choose|i: int| 0 <= i < values.len() && values[i] == v;
                if i < values.len() - 1 {
                    assert(values.drop_last()[i] == v);
                    assert(values.drop_last().contains(v));
                    assert(before.contains(v));
                    let j = choose|j: int| 0 <= j < before.len() && before[j] == v;
                    assert(distinct(values)[j] == v);
                } else if !before.contains(v) {
                    assert(distinct(values).last() == v);
                }
            }
            if distinct(values).contains(v) {
                let j = choose|j: int| 0 <= j < distinct(values).len() && distinct(values)[j] == v;
                if j < before.len() {
                    assert(before[j] == v);
                    assert(values.drop_last().contains(v));
                    let i = choose|i: int| 0 <= i < values.len() - 1 && values.drop_last()[i] == v;
                    assert(values[i] == v);
                } else {
                    assert(values.last() == v);
                }
            }
        }
    }
}

/// Whatever is found in a description, an enum has at least two values and no
/// value twice.
pub proof fn law_enums_have_two_distinct_values(
    backticks: Option<Seq<Seq<char>>>,
    labelled: Option<Seq<char>>,
    prose: Option<Seq<char>>,
)
    ensures
        values_found(backticks, labelled, prose) matches Some(v) ==> v.len() >= 2 && v.no_duplicates(),
{
    if backticks is Some {
        law_distinct_values(backtick_values(backticks->0));
    }
    if labelled is Some {
        law_distinct_values(labelled_values(labelled->0));
    }
    if prose is Some {
        law_distinct_values(prose_values(prose->0));
    }
}

} // verus!
