//! How the operations on texts relate to each other.
use vstd::prelude::*;

use crate::text;

verus! {

/// The pieces of a text, put together again with what separated them, are the text.
pub proof fn law_joining_undoes_splitting(s: Seq<char>, sep: Seq<char>)
    requires
        sep.len() > 0,
    ensures
        text::split(s, sep).len() > 0,
        text::join(text::split(s, sep), sep) == s,
    decreases s.len(),
{
    text::lemma_first_from(s, sep, 0);
    if let Some(i) = text::first_from(s, sep, 0) {
        let rest = s.skip(i + sep.len());
        law_joining_undoes_splitting(rest, sep);
        lemma_join_front(s.take(i), text::split(rest, sep), sep);
        assert(s =~= s.take(i) + sep + rest);
    }
}

/// A piece in front of others stands in front, with the separator behind it.
pub proof fn lemma_join_front(first: Seq<char>, rest: Seq<Seq<char>>, sep: Seq<char>)
    requires
        rest.len() > 0,
    ensures
        text::join(seq![first] + rest, sep) == first + sep + text::join(rest, sep),
    decreases rest.len(),
{
    let all = seq![first] + rest;
    if rest.len() == 1 {
        assert(all.drop_last() =~= seq![first]);
        assert(text::join(seq![first], sep) == first);
        assert(all.last() == rest[0]);
    } else {
        assert(all.drop_last() =~= seq![first] + rest.drop_last());
        assert(all.last() == rest.last());
        lemma_join_front(first, rest.drop_last(), sep);
        assert(text::join(all, sep) =~= first + sep + text::join(rest, sep));
    }
}

/// No piece holds what separates the pieces, and a text that does not hold it is
/// its only piece.
pub proof fn law_pieces_hold_no_separator(s: Seq<char>, sep: Seq<char>, k: int)
    requires
        sep.len() > 0,
        0 <= k < text::split(s, sep).len(),
    ensures
        !text::holds(text::split(s, sep)[k], sep),
        !text::holds(s, sep) ==> text::split(s, sep) == seq![s],
    decreases s.len(),
{
    text::lemma_first_from(s, sep, 0);
    match text::first_from(s, sep, 0) {
        Some(i) => {
            let rest = s.skip(i + sep.len());
            if k == 0 {
                let front = s.take(i);
                if text::holds(front, sep) {
                    let j = choose|j: int| text::stands_at(front, sep, j);
                    assert(front.subrange(j, j + sep.len()) =~= s.subrange(j, j + sep.len()));
                    assert(text::stands_at(s, sep, j));
                }
            } else {
                law_pieces_hold_no_separator(rest, sep, k - 1);
            }
        },
        None => {},
    }
}

/// What is put together with one character between the parts, none of which holds
/// it, is split at that character into the same parts.
pub proof fn law_splitting_undoes_joining(parts: Seq<Seq<char>>, c: char)
    requires
        parts.len() > 0,
        forall|i: int| 0 <= i < parts.len() ==> !(#[trigger] parts[i]).contains(c),
    ensures
        text::split(text::join(parts, seq![c]), seq![c]) == parts,
    decreases parts.len(),
{
    let sep = seq![c];
    if parts.len() == 1 {
        let s = parts[0];
        lemma_apart(s, c);
        text::lemma_first_from(s, sep, 0);
        assert(text::split(s, sep) =~= parts);
    } else {
        let first = parts[0];
        let rest = parts.skip(1);
        assert(parts =~= seq![first] + rest);
        assert forall|i: int| 0 <= i < rest.len() implies !(#[trigger] rest[i]).contains(c) by {
            assert(rest[i] == parts[i + 1]);
        }
        law_splitting_undoes_joining(rest, c);
        lemma_join_front(first, rest, sep);
        let tail = text::join(rest, sep);
        let s = first + sep + tail;
        text::lemma_first_from(s, sep, 0);
        let n: int = first.len() as int;
        assert(s.subrange(n, n + 1) =~= sep);
        assert(text::stands_at(s, sep, n));
        let i = text::first_from(s, sep, 0)->0;
        if i < n {
            assert(s.subrange(i, i + 1)[0] == c);
            assert(first[i] == c);
        }
        assert(i == n);
        assert(s.take(n) =~= first);
        assert(s.skip(n + 1) =~= tail);
        assert(text::split(s, sep) =~= parts);
    }
}

/// A text without a character does not hold it as a text either.
pub proof fn lemma_apart(s: Seq<char>, c: char)
    ensures
        text::holds(s, seq![c]) <==> s.contains(c),
{
    if s.contains(c) {
        let i = choose|i: int| 0 <= i < s.len() && s[i] == c;
        assert(s.subrange(i, i + 1) =~= seq![c]);
        assert(text::stands_at(s, seq![c], i));
    }
    if text::holds(s, seq![c]) {
        let i = choose|i: int| text::stands_at(s, seq![c], i);
        assert(s.subrange(i, i + 1)[0] == c);
        assert(s[i] == c);
    }
}

/// Trimming takes white space from both ends and nothing else: what is left stands
/// in the text, only white space stood around it, and it neither begins nor ends
/// with white space.
pub proof fn law_trimming_takes_white_space(s: Seq<char>) -> (cut: (int, int))
    ensures
        0 <= cut.0 <= cut.1 <= s.len(),
        text::trimmed(s) == s.subrange(cut.0, cut.1),
        forall|i: int| 0 <= i < cut.0 || cut.1 <= i < s.len() ==> text::is_space(#[trigger] s[i]),
        text::trimmed(s).len() > 0 ==> !text::is_space(text::trimmed(s)[0]) && !text::is_space(text::trimmed(s).last()),
{
    let a = lemma_trim_start(s);
    let rest = text::trimmed_start(s);
    let b = lemma_trim_end(rest);
    assert(text::trimmed(s) =~= s.subrange(a, a + b));
    assert forall|i: int| 0 <= i < a || a + b <= i < s.len() implies text::is_space(#[trigger] s[i]) by {
        if i >= a {
            assert(rest[i - a] == s[i]);
        }
    }
    (a, a + b)
}

proof fn lemma_trim_start(s: Seq<char>) -> (a: int)
    ensures
        0 <= a <= s.len(),
        text::trimmed_start(s) == s.skip(a),
        forall|i: int| 0 <= i < a ==> text::is_space(#[trigger] s[i]),
        text::trimmed_start(s).len() > 0 ==> !text::is_space(text::trimmed_start(s)[0]),
    decreases s.len(),
{
    if s.len() > 0 && text::is_space(s[0]) {
        let rest = s.skip(1);
        let a = lemma_trim_start(rest);
        assert(rest.skip(a) =~= s.skip(a + 1));
        assert forall|i: int| 0 <= i < a + 1 implies text::is_space(#[trigger] s[i]) by {
            if i > 0 {
                assert(rest[i - 1] == s[i]);
            }
        }
        a + 1
    } else {
        assert(s.skip(0) =~= s);
        0
    }
}

proof fn lemma_trim_end(s: Seq<char>) -> (b: int)
    ensures
        0 <= b <= s.len(),
        text::trimmed_end(s) == s.take(b),
        forall|i: int| b <= i < s.len() ==> text::is_space(#[trigger] s[i]),
        text::trimmed_end(s).len() > 0 ==> !text::is_space(text::trimmed_end(s).last()),
        s.len() > 0 && !text::is_space(s[0]) ==> b > 0,
    decreases s.len(),
{
    if s.len() > 0 && text::is_space(s.last()) {
        let front = s.drop_last();
        let b = lemma_trim_end(front);
        assert(front.take(b) =~= s.take(b));
        assert forall|i: int| b <= i < s.len() implies text::is_space(#[trigger] s[i]) by {
            if i < front.len() {
                assert(front[i] == s[i]);
            }
        }
        b
    } else {
        assert(s.take(s.len() as int) =~= s);
        s.len() as int
    }
}

/// A text without white space at its ends is trimmed already, and white space at
/// either end makes no difference.
pub proof fn law_trimmed_texts_stay(s: Seq<char>, c: char)
    ensures
        s.len() == 0 || (!text::is_space(s[0]) && !text::is_space(s.last())) ==> text::trimmed(s) == s,
        text::is_space(c) ==> text::trimmed(seq![c] + s) == text::trimmed(s),
        text::is_space(c) && s.len() > 0 && !text::is_space(s[0]) ==> text::trimmed(s.push(c)) == text::trimmed(s),
{
    let front = seq![c] + s;
    assert(front.skip(1) =~= s);
    let back = s.push(c);
    assert(back.drop_last() =~= s);
}

/// A text that fits stays as it is. A longer one is cut to the characters that fit,
/// as many as there are, and an ellipsis follows.
pub proof fn law_clipping_keeps_what_fits(s: Seq<char>, n: nat)
    ensures
        text::byte_len(s) <= n ==> text::clipped(s, n) == s,
        text::byte_len(s) > n ==> {
            let k = text::clipped(s, n).len() - 3;
            &&& 0 <= k < s.len()
            &&& text::clipped(s, n) == s.take(k) + "..."@
            &&& text::byte_len(s.take(k)) <= n
            &&& text::byte_len(s.take(k + 1)) > n
        },
{
    if text::byte_len(s) > n {
        assert(s.take(0).len() == 0);
        lemma_fitting(s, n, 0);
        reveal_strlit("...");
        assert("..."@.len() == 3);
    }
}

proof fn lemma_fitting(s: Seq<char>, n: nat, i: int)
    requires
        0 <= i <= s.len(),
        text::byte_len(s.take(i)) <= n,
        text::byte_len(s) > n,
    ensures
        ({
            let k = text::fitting_from(s, n, i);
            &&& i <= k < s.len()
            &&& text::byte_len(s.take(k)) <= n
            &&& text::byte_len(s.take(k + 1)) > n
        }),
    decreases s.len() - i,
{
    if i == s.len() {
        assert(s.take(i) =~= s);
    } else if text::byte_len(s.take(i + 1)) <= n {
        lemma_fitting(s, n, i + 1);
    }
}

/// Taking a text from the front as often as it stands there leaves one that does
/// not begin with it, and taking it once more or less before makes no difference.
pub proof fn law_leading_texts_are_taken(s: Seq<char>, pat: Seq<char>)
    requires
        pat.len() > 0,
    ensures
        !text::begins_with(text::without_leading(s, pat), pat),
        !text::begins_with(s, pat) ==> text::without_leading(s, pat) == s,
        text::without_leading(pat + s, pat) == text::without_leading(s, pat),
    decreases s.len(),
{
    if text::begins_with(s, pat) {
        law_leading_texts_are_taken(s.skip(pat.len() as int), pat);
    }
    assert((pat + s).subrange(0, pat.len() as int) =~= pat);
    assert((pat + s).skip(pat.len() as int) =~= s);
}

/// Swapping a character changes just that one, wherever it stands, and a text
/// without it not at all.
pub proof fn law_swapping_changes_one_character(s: Seq<char>, a: char, b: char)
    ensures
        text::swapped(s, a, b).len() == s.len(),
        forall|i: int|
            0 <= i < s.len() ==> #[trigger] text::swapped(s, a, b)[i] == if s[i] == a {
                b
            } else {
                s[i]
            },
        !s.contains(a) ==> text::swapped(s, a, b) == s,
        a != b ==> !text::swapped(s, a, b).contains(a),
{
    if !s.contains(a) {
        assert forall|i: int| 0 <= i < s.len() implies s[i] != a by {
            assert(s.contains(s[i]));
        }
        assert(text::swapped(s, a, b) =~= s);
    }
}

/// Replacing leaves a text as it is that does not hold what is replaced. Otherwise
/// it replaces the first occurrence and goes on behind it.
pub proof fn law_replacing_goes_from_left_to_right(before: Seq<char>, from: Seq<char>, to: Seq<char>, after: Seq<char>)
    requires
        from.len() > 0,
        text::first_from(before + from + after, from, 0) == Some(before.len() as int),
    ensures
        text::replaced(before + from + after, from, to) == before + to + text::replaced(after, from, to),
        !text::holds(after, from) ==> text::replaced(after, from, to) == after,
{
    let s = before + from + after;
    let n: int = before.len() as int;
    assert(s.take(n) =~= before);
    assert(s.skip(n + from.len()) =~= after);
    law_joining_undoes_splitting(after, from);
    lemma_join_front(before, text::split(after, from), to);
    assert(text::join(text::split(s, from), to) == before + to + text::join(text::split(after, from), to));
    law_pieces_hold_no_separator(after, from, 0);
}

/// A number that is written in decimal is read as that number.
pub proof fn law_decimals_are_read_back(n: nat)
    ensures
        text::read_number(text::decimal(n as int)) == Some(n),
        n > 0 ==> text::decimal(-(n as int)) == seq!['-'] + text::decimal(n as int),
{
    lemma_digits(n);
}

proof fn lemma_digits(n: nat)
    ensures
        text::digits(n).len() > 0,
        text::digits(n)[0] != '+',
        text::digits_value(text::digits(n)) == Some(n),
    decreases n,
{
    if n < 10 {
        assert(text::digits(n).drop_last() =~= Seq::<char>::empty());
        assert(text::digits_value(Seq::<char>::empty()) == Some(0nat));
    } else {
        lemma_digits(n / 10);
        assert(text::digits(n).drop_last() =~= text::digits(n / 10));
    }
}

/// In ASCII, lower and upper case keep the length, change letters only, and take no
/// notice of the case that was there before.
pub proof fn law_case_is_changed_letter_by_letter(s: Seq<char>)
    requires
        text::all_ascii(s),
    ensures
        text::lowercase(s).len() == s.len(),
        text::uppercase(s).len() == s.len(),
        text::lowercase(text::uppercase(s)) == text::lowercase(s),
        text::uppercase(text::lowercase(s)) == text::uppercase(s),
        text::lowercase(text::lowercase(s)) == text::lowercase(s),
        forall|i: int|
            0 <= i < s.len() ==> !text::is_upper(#[trigger] text::lowercase(s)[i]) && (!text::is_upper(s[i])
                ==> text::lowercase(s)[i] == s[i]),
        forall|i: int|
            0 <= i < s.len() ==> !text::is_lower(#[trigger] text::uppercase(s)[i]) && (!text::is_lower(s[i])
                ==> text::uppercase(s)[i] == s[i]),
{
    let low = text::lowercase(s);
    let up = text::uppercase(s);
    assert forall|i: int| 0 <= i < s.len() implies text::is_ascii(#[trigger] low[i]) && text::is_ascii(up[i]) by {
        assert(text::is_ascii(s[i]));
    }
    assert forall|i: int| 0 <= i < s.len() implies text::is_ascii(#[trigger] up[i]) by {
        assert(text::is_ascii(low[i]));
    }
    assert(text::lowercase(up) =~= low);
    assert(text::uppercase(low) =~= up);
    assert(text::lowercase(low) =~= low);
}

} // verus!
