//! Strings as sequences of characters: searching, splitting, replacing,
//! trimming and printing, each stated over `Seq<char>`.
use vstd::prelude::*;
use vstd::string::*;

verus! {

/// The views of a list of strings.
pub open spec fn strings(v: Seq<String>) -> Seq<Seq<char>> {
    Seq::new(v.len(), |i: int| v[i]@)
}

/// The views of a list of string slices.
pub open spec fn slices(v: Seq<&str>) -> Seq<Seq<char>> {
    Seq::new(v.len(), |i: int| v[i]@)
}

/// The view of an optional string.
pub open spec fn opt_string(o: Option<String>) -> Option<Seq<char>> {
    match o {
        Some(s) => Some(s@),
        None => None,
    }
}

/// The view of an optional string slice.
pub open spec fn opt_slice(o: Option<&str>) -> Option<Seq<char>> {
    match o {
        Some(s) => Some(s@),
        None => None,
    }
}

/// `pat` stands in `s` at position `i`.
pub open spec fn stands_at(s: Seq<char>, pat: Seq<char>, i: int) -> bool {
    &&& 0 <= i
    &&& i + pat.len() <= s.len()
    &&& s.subrange(i, i + pat.len()) == pat
}

/// `pat` stands somewhere in `s`.
pub open spec fn holds(s: Seq<char>, pat: Seq<char>) -> bool {
    exists|i: int| stands_at(s, pat, i)
}

pub open spec fn begins_with(s: Seq<char>, pat: Seq<char>) -> bool {
    stands_at(s, pat, 0)
}

pub open spec fn finishes_with(s: Seq<char>, pat: Seq<char>) -> bool {
    stands_at(s, pat, s.len() - pat.len())
}

/// The first position at or after `from` at which `pat` stands in `s`.
pub open spec fn first_from(s: Seq<char>, pat: Seq<char>, from: int) -> Option<int>
    decreases s.len() + 1 - from,
{
    if from < 0 || from + pat.len() > s.len() {
        None
    } else if stands_at(s, pat, from) {
        Some(from)
    } else {
        first_from(s, pat, from + 1)
    }
}

/// The pieces of `s` between the occurrences of `sep`, read from the left.
pub open spec fn split(s: Seq<char>, sep: Seq<char>) -> Seq<Seq<char>>
    decreases s.len(),
{
    match first_from(s, sep, 0) {
        Some(i) => if sep.len() > 0 && 0 <= i && i + sep.len() <= s.len() {
            seq![s.take(i)] + split(s.skip(i + sep.len()), sep)
        } else {
            seq![s]
        },
        None => seq![s],
    }
}

/// `parts` in order with `sep` between neighbours.
pub open spec fn join(parts: Seq<Seq<char>>, sep: Seq<char>) -> Seq<char>
    decreases parts.len(),
{
    if parts.len() == 0 {
        Seq::empty()
    } else if parts.len() == 1 {
        parts[0]
    } else {
        join(parts.drop_last(), sep) + sep + parts.last()
    }
}

/// `s` with every occurrence of `from` replaced by `to`.
pub open spec fn replaced(s: Seq<char>, from: Seq<char>, to: Seq<char>) -> Seq<char> {
    join(split(s, from), to)
}

/// `s` with the character `a` replaced by `b` throughout.
pub open spec fn swapped(s: Seq<char>, a: char, b: char) -> Seq<char> {
    s.map_values(|c: char| if c == a { b } else { c })
}

/// What is left of `s` when `pat` is taken from its front as often as it stands there.
pub open spec fn without_leading(s: Seq<char>, pat: Seq<char>) -> Seq<char>
    decreases s.len(),
{
    if pat.len() > 0 && begins_with(s, pat) {
        without_leading(s.skip(pat.len() as int), pat)
    } else {
        s
    }
}

/// `acc` followed by all of `items` in order.
pub open spec fn cat(acc: Seq<char>, items: Seq<Seq<char>>) -> Seq<char>
    decreases items.len(),
{
    if items.len() == 0 {
        acc
    } else {
        cat(acc, items.drop_last()) + items.last()
    }
}

/// A character of ASCII.
pub open spec fn is_ascii(c: char) -> bool {
    (c as int) < 128
}

/// Every character is one of ASCII.
pub open spec fn all_ascii(s: Seq<char>) -> bool {
    forall|i: int| 0 <= i < s.len() ==> is_ascii(#[trigger] s[i])
}

/// A letter between `A` and `Z` in lower case; all else as it is.
pub open spec fn ascii_lower(c: char) -> char {
    if 'A' <= c && c <= 'Z' {
        ((c as int) + 32) as char
    } else {
        c
    }
}

/// A letter between `a` and `z` in upper case; all else as it is.
pub open spec fn ascii_upper(c: char) -> char {
    if 'a' <= c && c <= 'z' {
        ((c as int) - 32) as char
    } else {
        c
    }
}

/// Whether `char::is_uppercase` holds of a character beyond ASCII.
pub uninterp spec fn is_upper_beyond_ascii(c: char) -> bool;

/// Whether `char::is_lowercase` holds of a character beyond ASCII.
pub uninterp spec fn is_lower_beyond_ascii(c: char) -> bool;

/// What `str::to_lowercase` makes of a string with characters beyond ASCII.
pub uninterp spec fn lowercase_beyond_ascii(s: Seq<char>) -> Seq<char>;

/// What `str::to_uppercase` makes of a string with characters beyond ASCII.
pub uninterp spec fn uppercase_beyond_ascii(s: Seq<char>) -> Seq<char>;

/// White space: the characters with Unicode's property White_Space.
pub open spec fn is_space(c: char) -> bool {
    ||| '\t' <= c && c <= '\r'
    ||| c == ' ' || c == '\u{85}' || c == '\u{a0}' || c == '\u{1680}'
    ||| '\u{2000}' <= c && c <= '\u{200a}'
    ||| c == '\u{2028}' || c == '\u{2029}' || c == '\u{202f}' || c == '\u{205f}' || c == '\u{3000}'
}

/// An upper case letter: in ASCII those from `A` to `Z`.
pub open spec fn is_upper(c: char) -> bool {
    if is_ascii(c) {
        'A' <= c && c <= 'Z'
    } else {
        is_upper_beyond_ascii(c)
    }
}

/// A lower case letter: in ASCII those from `a` to `z`.
pub open spec fn is_lower(c: char) -> bool {
    if is_ascii(c) {
        'a' <= c && c <= 'z'
    } else {
        is_lower_beyond_ascii(c)
    }
}

/// A string in lower case: in ASCII letter by letter.
pub open spec fn lowercase(s: Seq<char>) -> Seq<char> {
    if all_ascii(s) {
        s.map_values(|c: char| ascii_lower(c))
    } else {
        lowercase_beyond_ascii(s)
    }
}

/// A string in upper case: in ASCII letter by letter.
pub open spec fn uppercase(s: Seq<char>) -> Seq<char> {
    if all_ascii(s) {
        s.map_values(|c: char| ascii_upper(c))
    } else {
        uppercase_beyond_ascii(s)
    }
}

/// `char::is_whitespace`, which holds of the characters with Unicode's property
/// White_Space, and of no others.
#[verifier::external_body]
fn space_char(c: char) -> (r: bool)
    ensures
        r == is_space(c),
{
    c.is_whitespace()
}

/// `char::is_uppercase`, which holds of the characters with Unicode's property
/// Uppercase. In ASCII these are `A` to `Z`; beyond it the result depends on the
/// character alone and is named.
#[verifier::external_body]
pub(crate) fn upper_char(c: char) -> (r: bool)
    ensures
        r == if is_ascii(c) {
            'A' <= c && c <= 'Z'
        } else {
            is_upper_beyond_ascii(c)
        },
{
    c.is_uppercase()
}

/// `char::is_lowercase`, which holds of the characters with Unicode's property
/// Lowercase. In ASCII these are `a` to `z`; beyond it the result depends on the
/// character alone and is named.
#[verifier::external_body]
pub(crate) fn lower_char(c: char) -> (r: bool)
    ensures
        r == if is_ascii(c) {
            'a' <= c && c <= 'z'
        } else {
            is_lower_beyond_ascii(c)
        },
{
    c.is_lowercase()
}

/// `str::to_lowercase`: a string of ASCII letter by letter; what becomes of
/// others depends on the string alone and is named.
#[verifier::external_body]
pub(crate) fn to_lower(s: &str) -> (r: String)
    ensures
        r@ == if all_ascii(s@) {
            s@.map_values(|c: char| ascii_lower(c))
        } else {
            lowercase_beyond_ascii(s@)
        },
{
    s.to_lowercase()
}

/// `str::to_uppercase`: a string of ASCII letter by letter; what becomes of
/// others depends on the string alone and is named.
#[verifier::external_body]
pub(crate) fn to_upper(s: &str) -> (r: String)
    ensures
        r@ == if all_ascii(s@) {
            s@.map_values(|c: char| ascii_upper(c))
        } else {
            uppercase_beyond_ascii(s@)
        },
{
    s.to_uppercase()
}

/// `String::push` puts one character at the end.
pub assume_specification[ std::string::String::push ](s: &mut std::string::String, c: char)
    ensures
        final(s)@ == old(s)@.push(c),
;

/// The characters of a string, in order.
pub fn chars_of(s: &str) -> (r: Vec<char>)
    ensures
        r@ == s@,
{
    let mut v: Vec<char> = Vec::new();
    for c in it: s.chars()
        invariant
            v@ == it.seq().take(it.index() as int),
            it.seq() == s@,
    {
        v.push(c);
    }
    v
}

/// The string made of the characters `v[from..to]`.
pub fn string_of(v: &Vec<char>, from: usize, to: usize) -> (r: String)
    requires
        from <= to <= v.len(),
    ensures
        r@ == v@.subrange(from as int, to as int),
{
    let mut s = String::new();
    let mut i: usize = from;
    while i < to
        invariant
            from <= i <= to <= v.len(),
            s@ == v@.subrange(from as int, i as int),
        decreases to - i,
    {
        s.push(v[i]);
        i = i + 1;
        assert(v@.subrange(from as int, i as int) =~= v@.subrange(from as int, i - 1).push(v@[i - 1]));
    }
    s
}

/// Whether two strings hold the same characters.
pub fn same(a: &str, b: &str) -> (r: bool)
    ensures
        r == (a@ == b@),
{
    a.to_owned() == b.to_owned()
}

fn stands_at_exec(s: &Vec<char>, pat: &Vec<char>, i: usize) -> (r: bool)
    ensures
        r == stands_at(s@, pat@, i as int),
{
    if i > s.len() || pat.len() > s.len() - i {
        return false;
    }
    let mut k: usize = 0;
    while k < pat.len()
        invariant
            k <= pat.len(),
            i + pat.len() <= s.len(),
            forall|j: int| 0 <= j < k ==> s@[i + j] == pat@[j],
        decreases pat.len() - k,
    {
        if s[i + k] != pat[k] {
            assert(s@.subrange(i as int, i + pat@.len())[k as int] != pat@[k as int]);
            return false;
        }
        k = k + 1;
    }
    assert(s@.subrange(i as int, i + pat@.len()) =~= pat@);
    true
}

/// Finding from `from` on is finding the least position that is not before it.
pub proof fn lemma_first_from(s: Seq<char>, pat: Seq<char>, from: int)
    requires
        0 <= from,
    ensures
        match first_from(s, pat, from) {
            Some(i) => {
                &&& from <= i
                &&& stands_at(s, pat, i)
                &&& forall|j: int| from <= j < i ==> !stands_at(s, pat, j)
            },
            None => forall|j: int| from <= j ==> !stands_at(s, pat, j),
        },
    decreases s.len() + 1 - from,
{
    if from + pat.len() > s.len() {
    } else if stands_at(s, pat, from) {
    } else {
        lemma_first_from(s, pat, from + 1);
    }
}

fn first_from_exec(s: &Vec<char>, pat: &Vec<char>, from: usize) -> (r: Option<usize>)
    ensures
        match r {
            Some(i) => first_from(s@, pat@, from as int) == Some(i as int),
            None => first_from(s@, pat@, from as int) is None,
        },
{
    if from > s.len() || pat.len() > s.len() - from {
        return None;
    }
    let last: usize = s.len() - pat.len();
    let mut i: usize = from;
    while i < last
        invariant
            from <= i <= last,
            last + pat.len() == s.len(),
            first_from(s@, pat@, from as int) == first_from(s@, pat@, i as int),
        decreases last - i,
    {
        if stands_at_exec(s, pat, i) {
            return Some(i);
        }
        i = i + 1;
    }
    if stands_at_exec(s, pat, i) {
        return Some(i);
    }
    assert(first_from(s@, pat@, i + 1) is None);
    None
}

/// The first position, counted in characters, at which `pat` stands in `s`.
pub fn find(s: &str, pat: &str) -> (r: Option<usize>)
    ensures
        match r {
            Some(i) => first_from(s@, pat@, 0) == Some(i as int) && stands_at(s@, pat@, i as int),
            None => first_from(s@, pat@, 0) is None,
        },
{
    proof {
        lemma_first_from(s@, pat@, 0);
    }
    first_from_exec(&chars_of(s), &chars_of(pat), 0)
}

pub fn contains(s: &str, pat: &str) -> (r: bool)
    ensures
        r == holds(s@, pat@),
{
    proof {
        lemma_first_from(s@, pat@, 0);
    }
    find(s, pat).is_some()
}

pub fn starts_with(s: &str, pat: &str) -> (r: bool)
    ensures
        r == begins_with(s@, pat@),
{
    stands_at_exec(&chars_of(s), &chars_of(pat), 0)
}

pub fn ends_with(s: &str, pat: &str) -> (r: bool)
    ensures
        r == finishes_with(s@, pat@),
{
    let v = chars_of(s);
    let p = chars_of(pat);
    if p.len() > v.len() {
        return false;
    }
    stands_at_exec(&v, &p, v.len() - p.len())
}

/// What follows `pat` in `s`, if `s` begins with it.
pub open spec fn after_prefix(s: Seq<char>, pat: Seq<char>) -> Option<Seq<char>> {
    if begins_with(s, pat) {
        Some(s.skip(pat.len() as int))
    } else {
        None
    }
}

/// What comes before `pat` in `s`, if `s` ends with it.
pub open spec fn before_suffix(s: Seq<char>, pat: Seq<char>) -> Option<Seq<char>> {
    if finishes_with(s, pat) {
        Some(s.take(s.len() - pat.len()))
    } else {
        None
    }
}

pub fn strip_prefix<'a>(s: &'a str, pat: &str) -> (r: Option<&'a str>)
    ensures
        opt_slice(r) == after_prefix(s@, pat@),
{
    if starts_with(s, pat) {
        let r = s.substring_char(pat.unicode_len(), s.unicode_len());
        assert(r@ =~= s@.skip(pat@.len() as int));
        Some(r)
    } else {
        None
    }
}

pub fn strip_suffix<'a>(s: &'a str, pat: &str) -> (r: Option<&'a str>)
    ensures
        opt_slice(r) == before_suffix(s@, pat@),
{
    if ends_with(s, pat) {
        let r = s.substring_char(0, s.unicode_len() - pat.unicode_len());
        assert(r@ =~= s@.take(s@.len() - pat@.len()));
        Some(r)
    } else {
        None
    }
}

fn split_chars(s: &Vec<char>, sep: &Vec<char>) -> (r: Vec<String>)
    requires
        sep@.len() > 0,
    ensures
        strings(r@) == split(s@, sep@),
{
    let mut out: Vec<String> = Vec::new();
    let mut from: usize = 0;
    let ghost whole = split(s@, sep@);
    assert(s@.skip(0) =~= s@);
    assert(strings(out@) + whole =~= whole);
    loop
        invariant
            sep@.len() > 0,
            from <= s.len(),
            whole == split(s@, sep@),
            strings(out@) + split(s@.skip(from as int), sep@) == whole,
        decreases s.len() + 1 - from,
    {
        let ghost rest = s@.skip(from as int);
        proof {
            lemma_first_from(s@, sep@, from as int);
            lemma_first_from(rest, sep@, 0);
            assert forall|j: int| 0 <= j implies stands_at(rest, sep@, j) == stands_at(s@, sep@, j + from) by {
                if j + sep@.len() <= rest.len() {
                    assert(rest.subrange(j, j + sep@.len()) =~= s@.subrange(j + from, j + from + sep@.len()));
                }
            }
        }
        match first_from_exec(s, sep, from) {
            Some(i) => {
                proof {
                    assert(stands_at(rest, sep@, i - from));
                    assert(first_from(rest, sep@, 0) == Some(i - from));
                    assert(rest.take(i - from) =~= s@.subrange(from as int, i as int));
                    assert(rest.skip(i - from + sep@.len()) =~= s@.skip(i + sep@.len()));
                }
                let ghost before = strings(out@);
                let ghost start = from;
                out.push(string_of(s, from, i));
                from = i + sep.len();
                proof {
                    assert(strings(out@) =~= before + seq![s@.subrange(start as int, i as int)]);
                    assert(strings(out@) + split(s@.skip(from as int), sep@) =~= before + split(rest, sep@));
                }
            },
            None => {
                proof {
                    if first_from(rest, sep@, 0) is Some {
                        let j = first_from(rest, sep@, 0)->0;
                        assert(stands_at(s@, sep@, j + from));
                    }
                    assert(rest =~= s@.subrange(from as int, s@.len() as int));
                }
                let ghost before = strings(out@);
                out.push(string_of(s, from, s.len()));
                proof {
                    assert(strings(out@) =~= before + seq![rest]);
                }
                return out;
            },
        }
    }
}

/// The pieces of `s` between the occurrences of `sep`.
pub fn split_on(s: &str, sep: &str) -> (r: Vec<String>)
    requires
        sep@.len() > 0,
    ensures
        strings(r@) == split(s@, sep@),
{
    split_chars(&chars_of(s), &chars_of(sep))
}

/// The strings of `parts` with `sep` between neighbours.
pub fn joined(parts: &Vec<String>, sep: &str) -> (r: String)
    ensures
        r@ == join(strings(parts@), sep@),
{
    if parts.len() == 0 {
        return String::new();
    }
    let mut out = parts[0].clone();
    let mut i: usize = 1;
    proof {
        assert(strings(parts@).take(1) =~= seq![parts@[0]@]);
    }
    while i < parts.len()
        invariant
            1 <= i <= parts.len(),
            out@ == join(strings(parts@).take(i as int), sep@),
        decreases parts.len() - i,
    {
        out.append(sep);
        out.append(parts[i].as_str());
        i = i + 1;
        proof {
            assert(strings(parts@).take(i as int).drop_last() =~= strings(parts@).take(i - 1));
        }
    }
    assert(strings(parts@).take(i as int) =~= strings(parts@));
    out
}

/// `s` with every occurrence of `from` replaced by `to`.
pub fn replace(s: &str, from: &str, to: &str) -> (r: String)
    requires
        from@.len() > 0,
    ensures
        r@ == replaced(s@, from@, to@),
{
    let parts = split_on(s, from);
    joined(&parts, to)
}

/// `s` with the character `a` replaced by `b` throughout.
pub fn swap_char(s: &str, a: char, b: char) -> (r: String)
    ensures
        r@ == swapped(s@, a, b),
{
    let v = chars_of(s);
    let mut out = String::new();
    let mut i: usize = 0;
    while i < v.len()
        invariant
            i <= v.len(),
            v@ == s@,
            out@ == swapped(s@.take(i as int), a, b),
        decreases v.len() - i,
    {
        if v[i] == a {
            out.push(b);
        } else {
            out.push(v[i]);
        }
        i = i + 1;
        assert(swapped(s@.take(i as int), a, b) =~= swapped(s@.take(i - 1), a, b).push(
            if s@[i - 1] == a { b } else { s@[i - 1] },
        ));
    }
    assert(s@.take(i as int) =~= s@);
    out
}

/// `s` without `pat` at its front, however often it stands there.
pub fn trim_leading<'a>(s: &'a str, pat: &str) -> (r: &'a str)
    requires
        pat@.len() > 0,
    ensures
        r@ == without_leading(s@, pat@),
    decreases s@.len(),
{
    match strip_prefix(s, pat) {
        Some(rest) => trim_leading(rest, pat),
        None => s,
    }
}

/// `s` without the whitespace at its front.
pub open spec fn trimmed_start(s: Seq<char>) -> Seq<char>
    decreases s.len(),
{
    if s.len() > 0 && is_space(s[0]) {
        trimmed_start(s.skip(1))
    } else {
        s
    }
}

/// `s` without the whitespace at its back.
pub open spec fn trimmed_end(s: Seq<char>) -> Seq<char>
    decreases s.len(),
{
    if s.len() > 0 && is_space(s.last()) {
        trimmed_end(s.drop_last())
    } else {
        s
    }
}

/// `s` without the whitespace at both ends.
pub open spec fn trimmed(s: Seq<char>) -> Seq<char> {
    trimmed_end(trimmed_start(s))
}

/// `s` without the whitespace at both ends.
pub fn trim(s: &str) -> (r: String)
    ensures
        r@ == trimmed(s@),
{
    let v = chars_of(s);
    let mut a: usize = 0;
    assert(v@.skip(0) =~= v@);
    while a < v.len() && space_char(v[a])
        invariant
            a <= v.len(),
            trimmed_start(v@.skip(a as int)) == trimmed_start(v@),
        decreases v.len() - a,
    {
        assert(v@.skip(a as int).skip(1) =~= v@.skip(a + 1));
        a = a + 1;
    }
    let mut b: usize = v.len();
    assert(v@.subrange(a as int, b as int) =~= v@.skip(a as int));
    let ghost mid = trimmed_start(v@);
    while b > a && space_char(v[b - 1])
        invariant
            a <= b <= v.len(),
            trimmed_end(v@.subrange(a as int, b as int)) == trimmed_end(mid),
        decreases b,
    {
        assert(v@.subrange(a as int, b as int).drop_last() =~= v@.subrange(a as int, b - 1));
        b = b - 1;
    }
    string_of(&v, a, b)
}

/// Puts all of `items` at the end of `s`, in order.
pub fn append_all(s: &mut String, items: &Vec<String>)
    ensures
        final(s)@ == cat(old(s)@, strings(items@)),
{
    let mut i: usize = 0;
    let ghost start = s@;
    while i < items.len()
        invariant
            i <= items.len(),
            s@ == cat(start, strings(items@).take(i as int)),
        decreases items.len() - i,
    {
        s.append(items[i].as_str());
        i = i + 1;
        assert(strings(items@).take(i as int).drop_last() =~= strings(items@).take(i - 1));
    }
    assert(strings(items@).take(i as int) =~= strings(items@));
}

/// Whether `s` is one of `list`.
pub fn listed(list: &Vec<String>, s: &str) -> (r: bool)
    ensures
        r == strings(list@).contains(s@),
{
    let mut i: usize = 0;
    while i < list.len()
        invariant
            i <= list.len(),
            forall|j: int| 0 <= j < i ==> list@[j]@ != s@,
        decreases list.len() - i,
    {
        if same(list[i].as_str(), s) {
            assert(strings(list@)[i as int] == s@);
            return true;
        }
        i = i + 1;
    }
    false
}

/// How many bytes a character takes in UTF-8.
pub open spec fn width(c: char) -> nat {
    if (c as int) < 0x80 {
        1
    } else if (c as int) < 0x800 {
        2
    } else if (c as int) < 0x10000 {
        3
    } else {
        4
    }
}

/// How many bytes a string takes in UTF-8.
pub open spec fn byte_len(s: Seq<char>) -> nat
    decreases s.len(),
{
    if s.len() == 0 {
        0
    } else {
        byte_len(s.drop_last()) + width(s.last())
    }
}

/// How many of the characters of `s` fit in `n` bytes, when the first `i` do.
pub open spec fn fitting_from(s: Seq<char>, n: nat, i: int) -> int
    decreases s.len() - i,
{
    if i < 0 || i >= s.len() || byte_len(s.take(i + 1)) > n {
        i
    } else {
        fitting_from(s, n, i + 1)
    }
}

/// Where `s` is longer than `n` bytes, its first `n` bytes end with a character.
pub open spec fn cuts_cleanly(s: Seq<char>, n: nat) -> bool {
    byte_len(s) > n ==> byte_len(s.take(fitting_from(s, n, 0))) == n
}

/// `s`, or its first `n` bytes and an ellipsis where it is longer.
pub open spec fn clipped(s: Seq<char>, n: nat) -> Seq<char> {
    if byte_len(s) > n {
        s.take(fitting_from(s, n, 0)) + "..."@
    } else {
        s
    }
}

proof fn lemma_prefix_is_no_longer(s: Seq<char>, i: int)
    requires
        0 <= i <= s.len(),
    ensures
        byte_len(s.take(i)) <= byte_len(s),
        i < s.len() ==> byte_len(s.take(i)) < byte_len(s),
    decreases s.len(),
{
    if i < s.len() {
        assert(s.drop_last().take(i) =~= s.take(i));
        lemma_prefix_is_no_longer(s.drop_last(), i);
    } else {
        assert(s.take(i) =~= s);
    }
}

fn width_of(c: char) -> (r: u64)
    ensures
        r == width(c),
{
    let code: u32 = c as u32;
    if code < 0x80 {
        1
    } else if code < 0x800 {
        2
    } else if code < 0x10000 {
        3
    } else {
        4
    }
}

/// How many characters fit in `n` bytes, and the bytes that they take.
fn fitting(v: &Vec<char>, n: u64) -> (r: (usize, u64))
    requires
        n < 0x1_0000_0000,
    ensures
        r.0 <= v.len(),
        r.0 == fitting_from(v@, n as nat, 0),
        (r.0 < v.len()) == (byte_len(v@) > n),
        r.1 == byte_len(v@.take(r.0 as int)),
{
    let mut i: usize = 0;
    let mut used: u64 = 0;
    assert(v@.take(0).len() == 0);
    while i < v.len()
        invariant
            i <= v.len(),
            n < 0x1_0000_0000,
            used == byte_len(v@.take(i as int)),
            used <= n,
            fitting_from(v@, n as nat, 0) == fitting_from(v@, n as nat, i as int),
        decreases v.len() - i,
    {
        proof {
            assert(v@.take(i + 1).drop_last() =~= v@.take(i as int));
            assert(v@.take(i + 1).last() == v@[i as int]);
        }
        let w: u64 = width_of(v[i]);
        if used + w > n {
            proof {
                lemma_prefix_is_no_longer(v@, i + 1);
            }
            return (i, used);
        }
        used = used + w;
        i = i + 1;
    }
    assert(v@.take(i as int) =~= v@);
    (i, used)
}

/// Whether `s` takes more than `n` bytes.
pub fn exceeds(s: &str, n: u32) -> (r: bool)
    ensures
        r == (byte_len(s@) > n),
{
    let v = chars_of(s);
    let (k, _used) = fitting(&v, n as u64);
    k < v.len()
}

/// Whether `s` can be cut after `n` bytes.
pub fn can_clip(s: &str, n: u32) -> (r: bool)
    ensures
        r == cuts_cleanly(s@, n as nat),
{
    let v = chars_of(s);
    let (k, used) = fitting(&v, n as u64);
    k >= v.len() || used == n as u64
}

/// `s`, or its first `n` bytes and an ellipsis where it is longer.
pub fn clip(s: String, n: u32) -> (r: String)
    requires
        cuts_cleanly(s@, n as nat),
    ensures
        r@ == clipped(s@, n as nat),
{
    let v = chars_of(s.as_str());
    let (k, _used) = fitting(&v, n as u64);
    if k < v.len() {
        let mut r = string_of(&v, 0, k);
        assert(r@ =~= s@.take(k as int));
        r.append("...");
        r
    } else {
        s
    }
}

/// The decimal digits of a number.
pub open spec fn digits(n: nat) -> Seq<char>
    decreases n,
{
    if n < 10 {
        seq![digit(n)]
    } else {
        digits(n / 10).push(digit(n % 10))
    }
}

pub open spec fn digit(d: nat) -> char {
    seq!['0', '1', '2', '3', '4', '5', '6', '7', '8', '9'][d as int]
}

/// A number in decimal, with a leading minus sign if it is negative.
pub open spec fn decimal(n: int) -> Seq<char> {
    if n < 0 {
        seq!['-'] + digits((-n) as nat)
    } else {
        digits(n as nat)
    }
}

fn digit_char(d: u64) -> (c: char)
    requires
        d < 10,
    ensures
        c == digit(d as nat),
{
    match d {
        0 => '0',
        1 => '1',
        2 => '2',
        3 => '3',
        4 => '4',
        5 => '5',
        6 => '6',
        7 => '7',
        8 => '8',
        _ => '9',
    }
}

/// An unsigned number in decimal.
pub fn print_u64(n: u64) -> (r: String)
    ensures
        r@ == digits(n as nat),
    decreases n,
{
    if n < 10 {
        let mut s = String::new();
        s.push(digit_char(n));
        assert(s@ =~= digits(n as nat));
        s
    } else {
        let mut s = print_u64(n / 10);
        s.push(digit_char(n % 10));
        s
    }
}

/// A signed number in decimal.
pub fn print_i64(n: i64) -> (r: String)
    ensures
        r@ == decimal(n as int),
{
    if n < 0 {
        let m: u64 = if n == i64::MIN {
            9223372036854775808
        } else {
            (-n) as u64
        };
        let mut s = String::new();
        s.push('-');
        s.append(print_u64(m).as_str());
        assert(s@ =~= decimal(n as int));
        s
    } else {
        print_u64(n as u64)
    }
}

/// The value of a decimal digit.
pub open spec fn digit_value(c: char) -> Option<nat> {
    if '0' <= c && c <= '9' {
        Some((c as int - '0' as int) as nat)
    } else {
        None
    }
}

/// The number that digits stand for.
pub open spec fn digits_value(s: Seq<char>) -> Option<nat>
    decreases s.len(),
{
    if s.len() == 0 {
        Some(0)
    } else {
        match (digits_value(s.drop_last()), digit_value(s.last())) {
            (Some(n), Some(d)) => Some(n * 10 + d),
            _ => None,
        }
    }
}

/// The number that a text stands for: one digit or more, maybe behind a plus sign.
pub open spec fn read_number(s: Seq<char>) -> Option<nat> {
    let d = if s.len() > 0 && s[0] == '+' {
        s.skip(1)
    } else {
        s
    };
    if d.len() == 0 {
        None
    } else {
        digits_value(d)
    }
}

fn value_of_digit(c: char) -> (r: Option<u64>)
    ensures
        match r {
            Some(d) => digit_value(c) == Some(d as nat) && d < 10,
            None => digit_value(c) is None,
        },
{
    let code: u32 = c as u32;
    if 48 <= code && code <= 57 {
        Some((code - 48) as u64)
    } else {
        None
    }
}

proof fn lemma_digits_grow(s: Seq<char>, i: int)
    requires
        0 <= i <= s.len(),
    ensures
        digits_value(s) is Some ==> digits_value(s.take(i)) is Some && digits_value(s.take(i))->0 <= digits_value(s)->0,
    decreases s.len() - i,
{
    if i < s.len() {
        lemma_digits_grow(s, i + 1);
        assert(s.take(i + 1).drop_last() =~= s.take(i));
    } else {
        assert(s.take(i) =~= s);
    }
}

/// The number that a text stands for, where it fits.
pub fn parse_u64(s: &str) -> (r: Option<u64>)
    ensures
        match r {
            Some(n) => read_number(s@) == Some(n as nat),
            None => read_number(s@) is None || read_number(s@)->0 > u64::MAX,
        },
{
    let v = chars_of(s);
    let start: usize = if v.len() > 0 && v[0] == '+' {
        1
    } else {
        0
    };
    let ghost d = s@.skip(start as int);
    assert(s@.skip(0) =~= s@);
    if start == v.len() {
        return None;
    }
    let mut i: usize = start;
    let mut n: u64 = 0;
    assert(d.take(0).len() == 0);
    while i < v.len()
        invariant
            start <= i <= v.len(),
            v@ == s@,
            d == s@.skip(start as int),
            d.len() > 0,
            read_number(s@) == digits_value(d),
            digits_value(d.take(i - start)) == Some(n as nat),
        decreases v.len() - i,
    {
        proof {
            let k = i - start;
            assert(d.take(k + 1).drop_last() =~= d.take(k));
            assert(d.take(k + 1).last() == v@[i as int]);
            lemma_digits_grow(d, k + 1);
        }
        match value_of_digit(v[i]) {
            None => return None,
            Some(x) => {
                match n.checked_mul(10) {
                    None => return None,
                    Some(m) => match m.checked_add(x) {
                        None => return None,
                        Some(k) => {
                            n = k;
                        },
                    },
                }
            },
        }
        i = i + 1;
    }
    assert(d.take(i - start) =~= d);
    Some(n)
}

} // verus!
