//! Enum values: how they are written with their namespace, and how they are
//! found among the values of an enum.
use vstd::prelude::*;
use vstd::string::*;

use crate::text;
use crate::value::{DslValue, ValueView};

verus! {

/// The first character is an upper case letter.
pub open spec fn capitalised(s: Seq<char>) -> bool {
    s.len() > 0 && text::is_upper(s[0])
}

/// Every character is a lower case letter.
pub open spec fn all_lower(s: Seq<char>) -> bool {
    forall|i: int| 0 <= i < s.len() ==> text::is_lower(#[trigger] s[i])
}

/// The parts of an identifier between dots.
pub open spec fn parts(s: Seq<char>) -> Seq<Seq<char>> {
    text::split(s, "."@)
}

/// The value at the end of an identifier of the form `Type.value`,
/// `provider.Type.value` or `provider.resource.Type.value`.
pub open spec fn short_identifier(p: Seq<Seq<char>>) -> Option<Seq<char>> {
    if p.len() == 2 && capitalised(p[0]) {
        Some(p[1])
    } else if p.len() == 3 && all_lower(p[0]) && capitalised(p[1]) {
        Some(p[2])
    } else if p.len() == 4 && all_lower(p[0]) && capitalised(p[2]) {
        Some(p[3])
    } else {
        None
    }
}

/// The value at the end of an identifier of one of the short forms or of the
/// form `provider.service.resource.Type.value`.
pub open spec fn long_identifier(p: Seq<Seq<char>>) -> Option<Seq<char>> {
    if p.len() == 5 && all_lower(p[0]) && capitalised(p[3]) {
        Some(p[4])
    } else {
        short_identifier(p)
    }
}

/// The provider's spelling of a value that was found at the end of an
/// identifier; what is no identifier stays as it is.
pub open spec fn provider_spelling(value: Seq<char>, found: Option<Seq<char>>) -> Seq<char> {
    match found {
        Some(raw) => text::swapped(raw, '_', '-'),
        None => value,
    }
}

fn is_capitalised(s: &str) -> (r: bool)
    ensures
        r == capitalised(s@),
{
    let v = text::chars_of(s);
    v.len() > 0 && text::upper_char(v[0])
}

fn is_all_lower(s: &str) -> (r: bool)
    ensures
        r == all_lower(s@),
{
    let v = text::chars_of(s);
    let mut i: usize = 0;
    while i < v.len()
        invariant
            i <= v.len(),
            v@ == s@,
            forall|j: int| 0 <= j < i ==> text::is_lower(#[trigger] s@[j]),
        decreases v.len() - i,
    {
        if !text::lower_char(v[i]) {
            assert(!text::is_lower(s@[i as int]));
            return false;
        }
        i = i + 1;
    }
    true
}

fn split_parts(s: &str) -> (r: Vec<String>)
    ensures
        text::strings(r@) == parts(s@),
        r@.len() == parts(s@).len(),
        forall|i: int| 0 <= i < r@.len() ==> (#[trigger] r@[i])@ == parts(s@)[i],
{
    proof {
        reveal_strlit(".");
    }
    let r = text::split_on(s, ".");
    assert(text::strings(r@).len() == r@.len());
    assert forall|i: int| 0 <= i < r@.len() implies (#[trigger] r@[i])@ == parts(s@)[i] by {
        assert(text::strings(r@)[i] == r@[i]@);
    }
    r
}

fn find_short(p: &Vec<String>) -> (r: Option<&str>)
    ensures
        text::opt_slice(r) == short_identifier(text::strings(p@)),
{
    assert(forall|i: int| 0 <= i < p@.len() ==> text::strings(p@)[i] == p@[i]@);
    if p.len() == 2 && is_capitalised(p[0].as_str()) {
        return Some(p[1].as_str());
    }
    if p.len() == 3 && is_all_lower(p[0].as_str()) && is_capitalised(p[1].as_str()) {
        return Some(p[2].as_str());
    }
    if p.len() == 4 && is_all_lower(p[0].as_str()) && is_capitalised(p[2].as_str()) {
        return Some(p[3].as_str());
    }
    None
}

/// The provider's spelling of an enum value that is written in the
/// configuration language, such as `ap-northeast-1` for
/// `aws.Region.ap_northeast_1`; what is no such identifier stays as it is.
pub fn convert_enum_value(value: &str) -> (r: String)
    ensures
        r@ == provider_spelling(value@, short_identifier(parts(value@))),
{
    let p = split_parts(value);
    match find_short(&p) {
        Some(raw) => text::swap_char(raw, '_', '-'),
        None => value.to_owned(),
    }
}

/// As `convert_enum_value`, for identifiers that may name a service as well.
pub fn convert_namespaced_value(value: &str) -> (r: String)
    ensures
        r@ == provider_spelling(value@, long_identifier(parts(value@))),
{
    let p = split_parts(value);
    assert(forall|i: int| 0 <= i < p@.len() ==> text::strings(p@)[i] == p@[i]@);
    if p.len() == 5 && is_all_lower(p[0].as_str()) && is_capitalised(p[3].as_str()) {
        return text::swap_char(p[4].as_str(), '_', '-');
    }
    match find_short(&p) {
        Some(raw) => text::swap_char(raw, '_', '-'),
        None => value.to_owned(),
    }
}

/// Two strings agree but for the case of letters between `A` and `Z`.
pub open spec fn agree(a: Seq<char>, b: Seq<char>) -> bool {
    a.len() == b.len() && forall|i: int| 0 <= i < a.len() ==> text::ascii_lower(#[trigger] a[i]) == text::ascii_lower(b[i])
}

/// A written value stands for a value of the enum: they agree, or do when
/// underscores are read as hyphens.
pub open spec fn stands_for(written: Seq<char>, value: Seq<char>) -> bool {
    agree(written, value) || agree(text::swapped(written, '_', '-'), value)
}

/// The first value from `i` on that a written value stands for.
pub open spec fn first_match(written: Seq<char>, values: Seq<Seq<char>>, i: int) -> Option<Seq<char>>
    decreases values.len() - i,
{
    if i < 0 || i >= values.len() {
        None
    } else if stands_for(written, values[i]) {
        Some(values[i])
    } else {
        first_match(written, values, i + 1)
    }
}

/// The value of an enum that a written value stands for: itself if it is one
/// of the values, and else the first that it stands for.
pub open spec fn matching(written: Seq<char>, values: Seq<Seq<char>>) -> Option<Seq<char>> {
    if values.contains(written) {
        Some(written)
    } else {
        first_match(written, values, 0)
    }
}

/// The value of an enum that a written value stands for; one that stands for
/// none stays as it is.
pub open spec fn canonical(written: Seq<char>, values: Seq<Seq<char>>) -> Seq<char> {
    match matching(written, values) {
        Some(v) => v,
        None => written,
    }
}

fn lower_of(c: char) -> (r: u32)
    ensures
        r as int == text::ascii_lower(c) as int,
{
    let code: u32 = c as u32;
    if 65 <= code && code <= 90 {
        code + 32
    } else {
        code
    }
}

fn do_agree(a: &Vec<char>, b: &Vec<char>) -> (r: bool)
    ensures
        r == agree(a@, b@),
{
    if a.len() != b.len() {
        return false;
    }
    let mut i: usize = 0;
    while i < a.len()
        invariant
            i <= a.len(),
            a.len() == b.len(),
            forall|j: int| 0 <= j < i ==> text::ascii_lower(#[trigger] a@[j]) == text::ascii_lower(b@[j]),
        decreases a.len() - i,
    {
        if lower_of(a[i]) != lower_of(b[i]) {
            assert(text::ascii_lower(a@[i as int]) != text::ascii_lower(b@[i as int]));
            return false;
        }
        i = i + 1;
    }
    true
}

fn does_stand_for(written: &str, value: &str) -> (r: bool)
    ensures
        r == stands_for(written@, value@),
{
    let v = text::chars_of(value);
    if do_agree(&text::chars_of(written), &v) {
        return true;
    }
    do_agree(&text::chars_of(text::swap_char(written, '_', '-').as_str()), &v)
}

/// The value of an enum that a written value stands for.
pub fn find_matching_enum_value(written: &str, values: &Vec<String>) -> (r: Option<String>)
    ensures
        text::opt_string(r) == matching(written@, text::strings(values@)),
{
    if text::listed(values, written) {
        return Some(written.to_owned());
    }
    let mut i: usize = 0;
    let ghost all = text::strings(values@);
    while i < values.len()
        invariant
            i <= values.len(),
            all == text::strings(values@),
            !all.contains(written@),
            first_match(written@, all, 0) == first_match(written@, all, i as int),
        decreases values.len() - i,
    {
        if does_stand_for(written, values[i].as_str()) {
            return Some(values[i].clone());
        }
        i = i + 1;
    }
    None
}

/// The value of an enum that a written value stands for; one that stands for
/// none stays as it is.
pub fn canonicalize_enum_value(written: &str, values: &Vec<String>) -> (r: String)
    ensures
        r@ == canonical(written@, text::strings(values@)),
{
    match find_matching_enum_value(written, values) {
        Some(v) => v,
        None => written.to_owned(),
    }
}

/// The part of an identifier after the last dot.
pub open spec fn last_part(s: Seq<char>) -> Seq<char> {
    parts(s).last()
}

/// The part of an identifier after the last dot.
pub fn extract_enum_value(s: &str) -> (r: String)
    ensures
        r@ == last_part(s@),
{
    let p = split_parts(s);
    proof {
        lemma_some_part(s@, "."@);
    }
    p[p.len() - 1].clone()
}

proof fn lemma_some_part(s: Seq<char>, sep: Seq<char>)
    ensures
        text::split(s, sep).len() > 0,
    decreases s.len(),
{
}

/// What follows the last dot is the last part, and what stands before it gives
/// the other parts.
pub proof fn lemma_last_part(front: Seq<char>, value: Seq<char>)
    requires
        !value.contains('.'),
    ensures
        parts(front + "."@ + value) == parts(front).push(value),
        last_part(front + "."@ + value) == value,
    decreases front.len(),
{
    reveal_strlit(".");
    let dot = "."@;
    let s = front + dot + value;
    text::lemma_first_from(s, dot, 0);
    text::lemma_first_from(front, dot, 0);
    assert(text::stands_at(s, dot, front.len() as int)) by {
        assert(s.subrange(front.len() as int, front.len() as int + 1) =~= dot);
    }
    let i = text::first_from(s, dot, 0)->0;
    let rest = s.skip(i + 1);
    assert forall|k: int| 0 <= k < front.len() implies text::stands_at(s, dot, k) == text::stands_at(front, dot, k) by {
        assert(s.subrange(k, k + 1) =~= front.subrange(k, k + 1));
    }
    assert(parts(s) == seq![s.take(i)] + parts(rest));
    assert(s.take(i) =~= front.take(i));
    if i == front.len() {
        assert(rest =~= value);
        assert(s.take(i) =~= front);
        lemma_one_part(front);
        lemma_one_part(value);
        assert(parts(s) =~= parts(front).push(value));
    } else {
        let shorter = front.skip(i + 1);
        assert(text::stands_at(front, dot, i));
        assert(text::first_from(front, dot, 0) == Some(i));
        assert(parts(front) == seq![front.take(i)] + parts(shorter));
        assert(rest =~= shorter + dot + value);
        lemma_last_part(shorter, value);
        assert(parts(s) =~= parts(front).push(value));
    }
}

proof fn lemma_one_part(s: Seq<char>)
    requires
        forall|k: int| 0 <= k < s.len() ==> !text::stands_at(s, "."@, k) || !s.contains('.'),
    ensures
        parts(s) == seq![s],
{
    reveal_strlit(".");
    text::lemma_first_from(s, "."@, 0);
    if let Some(k) = text::first_from(s, "."@, 0) {
        assert(s.subrange(k, k + 1)[0] == '.');
        assert(s[k] == '.');
        assert(text::stands_at(s, "."@, k));
    }
}

/// The first value from `i` on that stands at the end of an identifier, behind a dot.
pub open spec fn final_value(s: Seq<char>, values: Seq<Seq<char>>, i: int) -> Option<Seq<char>>
    decreases values.len() - i,
{
    if i < 0 || i >= values.len() {
        None
    } else if s == values[i] || text::finishes_with(s, "."@ + values[i]) {
        Some(values[i])
    } else {
        final_value(s, values, i + 1)
    }
}

/// The value that an identifier names: one of the given values where it ends
/// with one, even if that holds dots itself, and else the part after the last dot.
pub open spec fn named_value(s: Seq<char>, values: Seq<Seq<char>>) -> Seq<char> {
    match final_value(s, values, 0) {
        Some(v) => v,
        None => last_part(s),
    }
}

/// The value that an identifier names, where values may hold dots themselves.
pub fn extract_enum_value_with_values(s: &str, values: &Vec<String>) -> (r: String)
    ensures
        r@ == named_value(s@, text::strings(values@)),
{
    let mut i: usize = 0;
    let ghost all = text::strings(values@);
    while i < values.len()
        invariant
            i <= values.len(),
            all == text::strings(values@),
            final_value(s@, all, 0) == final_value(s@, all, i as int),
        decreases values.len() - i,
    {
        let mut tail = ".".to_owned();
        tail.append(values[i].as_str());
        assert(all[i as int] == values@[i as int]@);
        if text::same(s, values[i].as_str()) || text::ends_with(s, tail.as_str()) {
            return values[i].clone();
        }
        i = i + 1;
    }
    extract_enum_value(s)
}

/// A value with its type and namespace.
pub open spec fn qualified(namespace: Seq<char>, name: Seq<char>, value: Seq<char>) -> Seq<char> {
    namespace + "."@ + name + "."@ + value
}

/// A value with its type and namespace.
pub fn qualify(namespace: &str, name: &str, value: &str) -> (r: String)
    ensures
        r@ == qualified(namespace@, name@, value@),
{
    let mut s = namespace.to_owned();
    s.append(".");
    s.append(name);
    s.append(".");
    s.append(value);
    s
}

/// A value is written without dots, behind its type, or behind its namespace
/// and its type.
pub open spec fn namespace_fits(s: Seq<char>, name: Seq<char>, namespace: Seq<char>) -> bool {
    !text::holds(s, "."@) || text::begins_with(s, name + "."@) || text::begins_with(
        s,
        namespace + "."@ + name + "."@,
    )
}

/// What is said of a value with another namespace.
pub open spec fn namespace_reason(name: Seq<char>, namespace: Seq<char>) -> Seq<char> {
    "expected the form value, "@ + name + ".value or "@ + namespace + "."@ + name + ".value"@
}

/// Whether a value is written without a namespace or with the right one.
pub fn validate_enum_namespace(s: &str, name: &str, namespace: &str) -> (r: Result<(), String>)
    ensures
        match r {
            Ok(_) => namespace_fits(s@, name@, namespace@),
            Err(e) => !namespace_fits(s@, name@, namespace@) && e@ == namespace_reason(name@, namespace@),
        },
{
    let mut typed = name.to_owned();
    typed.append(".");
    let mut full = namespace.to_owned();
    full.append(".");
    full.append(name);
    full.append(".");
    if !text::contains(s, ".") || text::starts_with(s, typed.as_str()) || text::starts_with(s, full.as_str()) {
        return Ok(());
    }
    let mut e = "expected the form value, ".to_owned();
    e.append(name);
    e.append(".value or ");
    e.append(namespace);
    e.append(".");
    e.append(name);
    e.append(".value");
    Err(e)
}

/// What is wrong with a value of an enum that has a namespace, if anything is.
pub open spec fn enum_fault(
    value: ValueView,
    name: Seq<char>,
    namespace: Seq<char>,
    values: Seq<Seq<char>>,
) -> Option<Seq<char>> {
    match value {
        ValueView::String(s) => if !namespace_fits(s, name, namespace) {
            Some(namespace_reason(name, namespace))
        } else if matching(last_part(s), values) is Some {
            None
        } else {
            Some("expected one of: "@ + text::join(values, ", "@))
        },
        _ => Some("Expected string"@),
    }
}

/// Whether a value is one of an enum, without a namespace or with the right one.
pub fn validate_namespaced_enum(value: &DslValue, name: &str, namespace: &str, valid_values: &Vec<String>) -> (r: Result<
    (),
    String,
>)
    ensures
        match r {
            Ok(_) => enum_fault(value@, name@, namespace@, text::strings(valid_values@)) is None,
            Err(e) => enum_fault(value@, name@, namespace@, text::strings(valid_values@)) == Some(e@),
        },
{
    match value {
        DslValue::String(s) => {
            if let Err(e) = validate_enum_namespace(s.as_str(), name, namespace) {
                return Err(e);
            }
            let raw = extract_enum_value(s.as_str());
            if find_matching_enum_value(raw.as_str(), valid_values).is_some() {
                Ok(())
            } else {
                let mut e = "expected one of: ".to_owned();
                e.append(text::joined(valid_values, ", ").as_str());
                Err(e)
            }
        },
        _ => Err("Expected string".to_owned()),
    }
}

/// A value of an enum is canonical.
pub proof fn law_values_are_canonical(values: Seq<Seq<char>>, i: int)
    requires
        0 <= i < values.len(),
    ensures
        canonical(values[i], values) == values[i],
{
    assert(values.contains(values[i]));
}

/// What is canonical stays as it is.
pub proof fn law_canonical_is_stable(written: Seq<char>, values: Seq<Seq<char>>)
    ensures
        canonical(canonical(written, values), values) == canonical(written, values),
{
    lemma_match_is_value(written, values, 0);
}

proof fn lemma_match_is_value(written: Seq<char>, values: Seq<Seq<char>>, i: int)
    requires
        0 <= i,
    ensures
        first_match(written, values, i) matches Some(v) ==> values.contains(v),
    decreases values.len() - i,
{
    if i < values.len() && !stands_for(written, values[i]) {
        lemma_match_is_value(written, values, i + 1);
    }
}

} // verus!
