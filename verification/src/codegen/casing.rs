//! Changing the case of names.
use vstd::prelude::*;

use crate::text;

verus! {

/// An upper case letter of ASCII.
pub open spec fn is_capital(c: char) -> bool {
    'A' <= c && c <= 'Z'
}

/// Letters of ASCII, no two capitals side by side.
pub open spec fn is_camel(s: Seq<char>) -> bool {
    &&& forall|i: int| 0 <= i < s.len() ==> is_capital(#[trigger] s[i]) || ('a' <= s[i] && s[i] <= 'z')
    &&& forall|i: int| 0 < i < s.len() && is_capital(#[trigger] s[i]) ==> !is_capital(s[i - 1])
}

/// The first `n` letters in lower case, with an underscore before each capital
/// but the first letter.
pub open spec fn snaked(s: Seq<char>, n: int) -> Seq<char>
    decreases n,
{
    if n <= 0 {
        Seq::empty()
    } else if n > 1 && is_capital(s[n - 1]) {
        snaked(s, n - 1).push('_').push(text::ascii_lower(s[n - 1]))
    } else {
        snaked(s, n - 1).push(text::ascii_lower(s[n - 1]))
    }
}

/// A character that a name in snake case may hold: a small letter or a digit of
/// ASCII, an underscore, or a character beyond ASCII.
pub open spec fn is_snake_char(c: char) -> bool {
    ('a' <= c && c <= 'z') || ('0' <= c && c <= '9') || c == '_' || !text::is_ascii(c)
}

/// The characters of a text that a name in snake case may hold.
pub open spec fn snake_chars(s: Seq<char>) -> Seq<char> {
    s.filter(|c: char| is_snake_char(c))
}

/// What `heck`'s `to_snake_case` makes of a name of another form.
pub uninterp spec fn snake_case_of_others(s: Seq<char>) -> Seq<char>;

/// A name in snake case.
pub open spec fn snake_case(s: Seq<char>) -> Seq<char> {
    if is_camel(s) {
        snaked(s, s.len() as int)
    } else {
        snake_chars(snake_case_of_others(s))
    }
}

/// What `heck`'s `to_pascal_case` makes of a name of another form.
pub uninterp spec fn pascal_case_of_others(s: Seq<char>) -> Seq<char>;

/// A name in Pascal case already: letters of ASCII, of which the first is a
/// capital and no two capitals stand side by side.
pub open spec fn is_pascal(s: Seq<char>) -> bool {
    is_camel(s) && s.len() > 0 && is_capital(s[0])
}

/// A name in Pascal case.
pub open spec fn pascal_case(s: Seq<char>) -> Seq<char> {
    if is_pascal(s) {
        s
    } else {
        pascal_case_of_others(s)
    }
}

/// `heck::ToSnakeCase::to_snake_case` on a string. Where the string is made of
/// letters of ASCII and no two capitals stand side by side, a word begins at each
/// capital, and the words are written in lower case with underscores between
/// them. What becomes of other strings depends on the string alone and is named;
/// of ASCII it holds small letters, digits and underscores only, so that leaving
/// out all other characters of ASCII changes nothing.
#[verifier::external_body]
pub(crate) fn to_snake(s: &str) -> (r: String)
    ensures
        r@ == if is_camel(s@) {
            snaked(s@, s@.len() as int)
        } else {
            snake_chars(snake_case_of_others(s@))
        },
{
    heck::ToSnakeCase::to_snake_case(s)
}

/// `heck::ToPascalCase::to_pascal_case` on a string. A string of letters of ASCII
/// that begins with a capital, and in which no two capitals stand side by side,
/// is given back as it is. What becomes of other strings depends on the string
/// alone and is named.
#[verifier::external_body]
pub(crate) fn to_pascal(s: &str) -> (r: String)
    ensures
        r@ == if is_pascal(s@) {
            s@
        } else {
            pascal_case_of_others(s@)
        },
{
    heck::ToPascalCase::to_pascal_case(s)
}

/// A name in snake case holds small letters, digits and underscores, and no other
/// characters of ASCII.
pub proof fn law_snake_case_is_plain(s: Seq<char>, i: int)
    requires
        0 <= i < snake_case(s).len(),
    ensures
        is_snake_char(snake_case(s)[i]),
{
    if is_camel(s) {
        lemma_snaked_is_plain(s, s.len() as int, i);
    } else {
        let all = snake_case_of_others(s);
        all.lemma_filter_pred(|c: char| is_snake_char(c), i);
    }
}

proof fn lemma_snaked_is_plain(s: Seq<char>, n: int, i: int)
    requires
        is_camel(s),
        0 <= n <= s.len(),
        0 <= i < snaked(s, n).len(),
    ensures
        is_snake_char(snaked(s, n)[i]),
    decreases n,
{
    if n > 0 {
        assert(is_capital(s[n - 1]) || ('a' <= s[n - 1] && s[n - 1] <= 'z'));
        if i < snaked(s, n - 1).len() {
            lemma_snaked_is_plain(s, n - 1, i);
        }
    }
}

} // verus!
