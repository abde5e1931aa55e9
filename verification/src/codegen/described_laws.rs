//! Which values a description is found to list.
use vstd::prelude::*;

use crate::codegen::enums;
use crate::text;
use crate::text_laws;

verus! {

/// A value that can stand in an enum and is not the name of a property.
pub open spec fn is_value(v: Seq<char>) -> bool {
    enums::reads_like_enum_value(v) && !enums::reads_like_property(v)
}

/// Each value is kept once, at the place where it first stood.
pub proof fn law_first_occurrences_stay(values: Seq<Seq<char>>, v: Seq<char>)
    ensures
        enums::distinct(Seq::empty()) == Seq::<Seq<char>>::empty(),
        enums::distinct(values.push(v)) == if values.contains(v) {
            enums::distinct(values)
        } else {
            enums::distinct(values).push(v)
        },
        values.no_duplicates() ==> enums::distinct(values) == values,
    decreases values.len(),
{
    assert(values.push(v).drop_last() =~= values);
    enums::law_distinct_values(values);
    if values.no_duplicates() && values.len() > 0 {
        let before = values.drop_last();
        let last = values.last();
        assert(before.no_duplicates()) by {
            assert forall|i: int, j: int| 0 <= i < before.len() && 0 <= j < before.len() && i != j implies before[i]
                != before[j] by {
                assert(before[i] == values[i] && before[j] == values[j]);
            }
        }
        law_first_occurrences_stay(before, last);
        if before.contains(last) {
            let i = choose|i: int| 0 <= i < before.len() && before[i] == last;
            assert(values[i] == values[values.len() - 1]);
        }
        assert(values =~= before.push(last));
    }
}

/// Of the texts between backticks those are kept, in order, that can be values of
/// an enum and do not read like the name of a property.
pub proof fn law_marked_values_are_kept(found: Seq<Seq<char>>, v: Seq<char>)
    ensures
        enums::backtick_values(Seq::empty()) == Seq::<Seq<char>>::empty(),
        enums::backtick_values(found.push(v)) == if is_value(v) {
            enums::backtick_values(found).push(v)
        } else {
            enums::backtick_values(found)
        },
{
    assert(found.push(v).drop_last() =~= found);
}

/// Two or more different values between backticks are the values of the enum,
/// whatever else the description says.
pub proof fn law_marked_values_are_found(found: Seq<Seq<char>>, labelled: Option<Seq<char>>, prose: Option<Seq<char>>)
    requires
        found.len() >= 2,
        found.no_duplicates(),
        forall|i: int| 0 <= i < found.len() ==> is_value(#[trigger] found[i]),
    ensures
        enums::values_found(Some(found), labelled, prose) == Some(found),
{
    lemma_all_kept(found);
    law_first_occurrences_stay(found, found[0]);
}

proof fn lemma_all_kept(found: Seq<Seq<char>>)
    requires
        forall|i: int| 0 <= i < found.len() ==> is_value(#[trigger] found[i]),
    ensures
        enums::backtick_values(found) == found,
    decreases found.len(),
{
    if found.len() > 0 {
        let before = found.drop_last();
        assert forall|i: int| 0 <= i < before.len() implies is_value(#[trigger] before[i]) by {
            assert(before[i] == found[i]);
        }
        lemma_all_kept(before);
        assert(is_value(found[found.len() - 1]));
        assert(found =~= before.push(found.last()));
    }
}

/// Where fewer than two values stand between backticks, a labelled list with two or
/// more decides, and else a list in prose with two or more. Where none has two, or
/// all are alike, there is no enum.
pub proof fn law_sources_are_tried_in_order(found: Seq<Seq<char>>, labelled: Option<Seq<char>>, prose: Option<Seq<char>>)
    ensures
        enums::values_found(None, labelled, prose) is None,
        ({
            let r = enums::values_found(Some(found), labelled, prose);
            let marked = enums::backtick_values(found);
            let listed = match labelled {
                Some(l) => enums::labelled_values(l),
                None => seq![],
            };
            let told = match prose {
                Some(p) => enums::prose_values(p),
                None => seq![],
            };
            let source = if marked.len() >= 2 {
                marked
            } else if listed.len() >= 2 {
                listed
            } else if told.len() >= 2 {
                told
            } else {
                seq![]
            };
            &&& r is Some <==> enums::distinct(source).len() >= 2
            &&& r matches Some(values) ==> values == enums::distinct(source)
        }),
{
    assert(enums::distinct(seq![]) =~= seq![]);
}

/// A text without the name of a property: what is listed with it.
pub open spec fn is_listed(v: Seq<char>) -> bool {
    v.len() > 0 && !enums::reads_like_property(v)
}

/// The values of a labelled list stand between pipes or, where there is no pipe,
/// between commas. Each is taken without the white space around it.
pub proof fn law_labelled_values_are_found(pieces: Seq<Seq<char>>, values: Seq<Seq<char>>, c: char)
    requires
        c == '|' || c == ',',
        pieces.len() >= 2,
        pieces.len() == values.len(),
        forall|i: int|
            0 <= i < pieces.len() ==> !(#[trigger] pieces[i]).contains('|') && !pieces[i].contains(c) && text::trimmed(
                pieces[i],
            ) == values[i] && is_listed(values[i]),
        text::trimmed(text::join(pieces, seq![c])) == text::join(pieces, seq![c]),
    ensures
        enums::labelled_values(text::join(pieces, seq![c])) == values,
{
    let list = text::join(pieces, seq![c]);
    reveal_strlit("|");
    reveal_strlit(",");
    assert("|"@ =~= seq!['|']);
    assert(","@ =~= seq![',']);
    text_laws::law_splitting_undoes_joining(pieces, c);
    lemma_joined_holds(pieces, c, '|');
    text_laws::lemma_apart(list, '|');
    text_laws::lemma_apart(list, ',');
    lemma_all_listed(pieces, values);
}

/// What is put together holds what stands between the parts, and no other character
/// that no part holds.
proof fn lemma_joined_holds(pieces: Seq<Seq<char>>, c: char, d: char)
    requires
        pieces.len() >= 1,
        forall|i: int| 0 <= i < pieces.len() ==> !(#[trigger] pieces[i]).contains(d),
    ensures
        pieces.len() >= 2 ==> text::join(pieces, seq![c]).contains(c),
        c != d ==> !text::join(pieces, seq![c]).contains(d),
    decreases pieces.len(),
{
    if pieces.len() >= 2 {
        let before = pieces.drop_last();
        assert forall|i: int| 0 <= i < before.len() implies !(#[trigger] before[i]).contains(d) by {
            assert(before[i] == pieces[i]);
        }
        lemma_joined_holds(before, c, d);
        let front = text::join(before, seq![c]);
        let s = front + seq![c] + pieces.last();
        assert(s[front.len() as int] == c);
        if c != d && s.contains(d) {
            let i = choose|i: int| 0 <= i < s.len() && s[i] == d;
            if i < front.len() {
                assert(front[i] == d);
            } else {
                assert(i != front.len());
                assert(pieces[pieces.len() - 1][i - front.len() - 1] == d);
            }
        }
    } else {
        assert(text::join(pieces, seq![c]) == pieces[0]);
    }
}

proof fn lemma_all_listed(pieces: Seq<Seq<char>>, values: Seq<Seq<char>>)
    requires
        pieces.len() == values.len(),
        forall|i: int| 0 <= i < pieces.len() ==> text::trimmed(#[trigger] pieces[i]) == values[i] && is_listed(values[i]),
    ensures
        enums::trimmed_values(pieces) == values,
    decreases pieces.len(),
{
    if pieces.len() > 0 {
        let before = pieces.drop_last();
        let front = values.drop_last();
        assert forall|i: int| 0 <= i < before.len() implies text::trimmed(#[trigger] before[i]) == front[i] && is_listed(
            front[i],
        ) by {
            assert(before[i] == pieces[i]);
        }
        lemma_all_listed(before, front);
        assert(text::trimmed(pieces[pieces.len() - 1]) == values[values.len() - 1]);
        assert(values =~= front.push(values.last()));
    }
    assert(enums::trimmed_values(pieces) =~= values);
}

/// Of a labelled list, what is empty or reads like the name of a property is left
/// out, and the rest stays in order. A list without pipes and commas has no values.
pub proof fn law_labelled_values_are_kept(pieces: Seq<Seq<char>>, piece: Seq<char>, list: Seq<char>)
    ensures
        enums::trimmed_values(Seq::empty()) == Seq::<Seq<char>>::empty(),
        enums::trimmed_values(pieces.push(piece)) == if is_listed(text::trimmed(piece)) {
            enums::trimmed_values(pieces).push(text::trimmed(piece))
        } else {
            enums::trimmed_values(pieces)
        },
        !text::holds(text::trimmed(list), "|"@) && !text::holds(text::trimmed(list), ","@) ==> enums::labelled_values(
            list,
        ).len() == 0,
{
    assert(pieces.push(piece).drop_last() =~= pieces);
}

/// A word: no white space in it.
pub open spec fn is_word(w: Seq<char>) -> bool {
    w.len() > 0 && forall|i: int| 0 <= i < w.len() ==> !text::is_space(#[trigger] w[i])
}

/// In prose, a piece between commas gives its one word, the word behind `or`, or
/// the two words around `or`.
pub proof fn law_pieces_of_prose_give_their_words(a: Seq<char>, b: Seq<char>)
    requires
        is_word(a),
        is_word(b),
    ensures
        enums::piece_values(a) == seq![a],
        enums::piece_values(" "@ + a) == seq![a],
        enums::piece_values("or "@ + a) == seq![a],
        enums::piece_values(" or "@ + a) == seq![a],
        a != "or"@ ==> enums::piece_values(a + " or "@ + b) == seq![a, b],
{
    lemma_one_word(a);
    lemma_behind_or(a);
    if a != "or"@ {
        lemma_around_or(a, b);
    }
}

proof fn lemma_one_word(a: Seq<char>)
    requires
        is_word(a),
    ensures
        enums::piece_values(a) == seq![a],
        enums::piece_values(" "@ + a) == seq![a],
{
    reveal_strlit(" ");
    lemma_word(a);
    text_laws::law_trimmed_texts_stay(a, ' ');
    assert(" "@ =~= seq![' ']);
}

proof fn lemma_behind_or(a: Seq<char>)
    requires
        is_word(a),
    ensures
        enums::piece_values("or "@ + a) == seq![a],
        enums::piece_values(" or "@ + a) == seq![a],
{
    reveal_strlit("or ");
    reveal_strlit(" or ");
    lemma_word(a);
    text_laws::law_trimmed_texts_stay(a, ' ');
    let behind = "or "@ + a;
    text_laws::law_trimmed_texts_stay(behind, ' ');
    assert(behind[0] == 'o');
    assert(behind.last() == a.last());
    assert(" or "@ + a =~= seq![' '] + behind);
    assert(behind.subrange(0, 3) =~= "or "@);
    assert(text::begins_with(behind, "or "@));
    assert(behind.skip(3) =~= a);
}

proof fn lemma_around_or(a: Seq<char>, b: Seq<char>)
    requires
        is_word(a),
        is_word(b),
        a != "or"@,
    ensures
        enums::piece_values(a + " or "@ + b) == seq![a, b],
{
    let both = a + " or "@ + b;
    let n: int = a.len() as int;
    lemma_word(a);
    lemma_word(b);
    text_laws::law_trimmed_texts_stay(a, ' ');
    text_laws::law_trimmed_texts_stay(b, ' ');
    text_laws::law_trimmed_texts_stay(both, ' ');
    assert(both[0] == a[0]);
    assert(both.last() == b.last());
    assert(text::trimmed(both) == both);
    lemma_first_or(a, b);
    assert(both.take(n) =~= a);
    assert(" or "@.len() == 4) by {
        reveal_strlit(" or ");
    }
    assert(both.skip(n + 4) =~= b);
    let parts = text::split(both, " or "@);
    assert(text::split(b, " or "@) == seq![b]);
    assert(parts =~= seq![a, b]);
    assert(parts.map_values(|s: Seq<char>| text::trimmed(s)) =~= seq![a, b]);
}

proof fn lemma_first_or(a: Seq<char>, b: Seq<char>)
    requires
        is_word(a),
        is_word(b),
        a != "or"@,
    ensures
        !text::begins_with(a + " or "@ + b, "or "@),
        text::holds(a + " or "@ + b, " or "@),
        text::first_from(a + " or "@ + b, " or "@, 0) == Some(a.len() as int),
{
    reveal_strlit("or");
    reveal_strlit("or ");
    reveal_strlit(" or ");
    let both = a + " or "@ + b;
    let n: int = a.len() as int;
    lemma_word(a);
    if text::begins_with(both, "or "@) {
        let front = both.subrange(0, 3);
        assert(front[0] == 'o' && front[1] == 'r' && front[2] == ' ');
        assert(both[0] == 'o' && both[1] == 'r' && both[2] == ' ');
        if n > 2 {
            assert(a[2] == ' ');
        } else if n == 2 {
            assert(a[0] == 'o' && a[1] == 'r');
            assert(a =~= "or"@);
        } else {
            assert(both[1] == ' ');
        }
    }
    assert(both.subrange(n, n + 4) =~= " or "@);
    assert(text::stands_at(both, " or "@, n));
    text::lemma_first_from(both, " or "@, 0);
    let i = text::first_from(both, " or "@, 0)->0;
    if i < n {
        assert(both.subrange(i, i + 4)[0] == ' ');
        assert(a[i] == ' ');
    }
}

proof fn lemma_word(w: Seq<char>)
    requires
        is_word(w),
    ensures
        !text::begins_with(w, "or "@),
        !text::holds(w, " or "@),
        text::first_from(w, " or "@, 0) is None,
        !text::is_space(w[0]),
        !text::is_space(w.last()),
        text::is_space(' '),
{
    reveal_strlit("or ");
    reveal_strlit(" or ");
    text::lemma_first_from(w, " or "@, 0);
    if text::begins_with(w, "or "@) {
        assert(w.subrange(0, 3)[2] == ' ');
        assert(w[2] == ' ');
    }
    if text::holds(w, " or "@) {
        let i = choose|i: int| text::stands_at(w, " or "@, i);
        assert(w.subrange(i, i + 4)[0] == ' ');
        assert(w[i] == ' ');
    }
    assert(w.last() == w[w.len() - 1]);
}

/// In prose, the values of all pieces are put together in order, and of them single
/// words are kept that do not read like the name of a property.
pub proof fn law_words_of_prose_are_kept(
    pieces: Seq<Seq<char>>,
    piece: Seq<char>,
    values: Seq<Seq<char>>,
    v: Seq<char>,
)
    ensures
        enums::pieces_values(Seq::empty()) == Seq::<Seq<char>>::empty(),
        enums::pieces_values(pieces.push(piece)) == enums::pieces_values(pieces) + enums::piece_values(piece),
        enums::single_words(Seq::empty()) == Seq::<Seq<char>>::empty(),
        enums::single_words(values.push(v)) == if is_listed(v) && !v.contains(' ') {
            enums::single_words(values).push(v)
        } else {
            enums::single_words(values)
        },
{
    assert(pieces.push(piece).drop_last() =~= pieces);
    assert(values.push(v).drop_last() =~= values);
}

/// A list in prose, without an explanation behind it: the words between the commas,
/// each maybe behind a space, and the last behind `or`.
pub proof fn law_prose_values_are_found(pieces: Seq<Seq<char>>, words: Seq<Seq<char>>, last: Seq<char>)
    requires
        words.len() > 0,
        pieces.len() == words.len(),
        pieces[0] == words[0],
        is_word(last) && is_listed(last) && !last.contains(','),
        forall|i: int| 0 <= i < words.len() ==> is_word(#[trigger] words[i]) && is_listed(words[i]),
        forall|i: int|
            0 <= i < pieces.len() ==> !(#[trigger] pieces[i]).contains(',') && (pieces[i] == words[i] || pieces[i] == " "@
                + words[i]),
        enums::explanation_at(text::join(pieces.push(" or "@ + last), seq![','])) is None,
    ensures
        enums::prose_values(text::join(pieces.push(" or "@ + last), seq![','])) == words.push(last),
{
    let all = pieces.push(" or "@ + last);
    let list = text::join(all, seq![',']);
    lemma_prose_list(pieces, last);
    assert(","@ == seq![',']) by {
        reveal_strlit(",");
        assert(","@ =~= seq![',']);
    }
    lemma_words_of(pieces, words);
    law_words_of_prose_are_kept(pieces, " or "@ + last, words, last);
    lemma_behind_or(last);
    assert(words + seq![last] =~= words.push(last));
    lemma_no_space(last);
    lemma_words_kept(words);
}

proof fn lemma_prose_list(pieces: Seq<Seq<char>>, last: Seq<char>)
    requires
        pieces.len() > 0,
        is_word(last) && !last.contains(','),
        is_word(pieces[0]),
        forall|i: int| 0 <= i < pieces.len() ==> !(#[trigger] pieces[i]).contains(','),
    ensures
        ({
            let all = pieces.push(" or "@ + last);
            let list = text::join(all, seq![',']);
            &&& text::trimmed(list) == list
            &&& text::split(list, seq![',']) == all
        }),
{
    let all = pieces.push(" or "@ + last);
    lemma_prose_ends(pieces, last);
    assert forall|i: int| 0 <= i < all.len() implies !(#[trigger] all[i]).contains(',') by {
        if i == pieces.len() {
            lemma_no_comma(last);
        } else {
            assert(all[i] == pieces[i]);
        }
    }
    text_laws::law_splitting_undoes_joining(all, ',');
}

proof fn lemma_no_comma(last: Seq<char>)
    requires
        !last.contains(','),
    ensures
        !(" or "@ + last).contains(','),
{
    reveal_strlit(" or ");
    let s = " or "@ + last;
    if s.contains(',') {
        let k = choose|k: int| 0 <= k < s.len() && s[k] == ',';
        if k >= 4 {
            assert(last[k - 4] == ',');
        }
    }
}

proof fn lemma_prose_ends(pieces: Seq<Seq<char>>, last: Seq<char>)
    requires
        pieces.len() > 0,
        is_word(last),
        is_word(pieces[0]),
    ensures
        ({
            let list = text::join(pieces.push(" or "@ + last), seq![',']);
            text::trimmed(list) == list
        }),
{
    let all = pieces.push(" or "@ + last);
    assert(all.drop_last() =~= pieces);
    assert(all.last() == " or "@ + last);
    let front = text::join(pieces, seq![',']);
    let list = front + seq![','] + (" or "@ + last);
    assert(text::join(all, seq![',']) == list);
    lemma_first_char(pieces);
    assert(list[0] == front[0]);
    assert(list.last() == last.last());
    assert(!text::is_space(pieces[0][0]) && !text::is_space(last[last.len() - 1]));
    text_laws::law_trimmed_texts_stay(list, ' ');
}

proof fn lemma_first_char(words: Seq<Seq<char>>)
    requires
        words.len() > 0,
        is_word(words[0]),
    ensures
        text::join(words, seq![',']).len() > 0,
        text::join(words, seq![','])[0] == words[0][0],
    decreases words.len(),
{
    if words.len() == 1 {
        assert(text::join(words, seq![',']) == words[0]);
    } else {
        lemma_first_char(words.drop_last());
    }
}

proof fn lemma_words_of(pieces: Seq<Seq<char>>, words: Seq<Seq<char>>)
    requires
        pieces.len() == words.len(),
        forall|i: int| 0 <= i < words.len() ==> is_word(#[trigger] words[i]),
        forall|i: int| 0 <= i < pieces.len() ==> #[trigger] pieces[i] == words[i] || pieces[i] == " "@ + words[i],
    ensures
        enums::pieces_values(pieces) == words,
    decreases words.len(),
{
    if words.len() > 0 {
        let before = words.drop_last();
        let front = pieces.drop_last();
        assert forall|i: int| 0 <= i < before.len() implies is_word(#[trigger] before[i]) by {
            assert(before[i] == words[i]);
        }
        assert forall|i: int| 0 <= i < front.len() implies #[trigger] front[i] == before[i] || front[i] == " "@
            + before[i] by {
            assert(front[i] == pieces[i] && before[i] == words[i]);
        }
        lemma_words_of(front, before);
        assert(is_word(words[words.len() - 1]));
        assert(pieces[pieces.len() - 1] == pieces.last());
        lemma_one_word(words.last());
        assert(words =~= before + seq![words.last()]);
    } else {
        assert(enums::pieces_values(pieces) =~= words);
    }
}

proof fn lemma_no_space(w: Seq<char>)
    requires
        is_word(w),
    ensures
        !w.contains(' '),
{
    if w.contains(' ') {
        let i = choose|i: int| 0 <= i < w.len() && w[i] == ' ';
        assert(!text::is_space(w[i]));
    }
}

proof fn lemma_words_kept(words: Seq<Seq<char>>)
    requires
        forall|i: int| 0 <= i < words.len() ==> is_word(#[trigger] words[i]) && is_listed(words[i]),
    ensures
        enums::single_words(words) == words,
    decreases words.len(),
{
    if words.len() > 0 {
        let before = words.drop_last();
        assert forall|i: int| 0 <= i < before.len() implies is_word(#[trigger] before[i]) && is_listed(before[i]) by {
            assert(before[i] == words[i]);
        }
        lemma_words_kept(before);
        assert(is_word(words[words.len() - 1]) && is_listed(words[words.len() - 1]));
        lemma_no_space(words.last());
        assert(words =~= before.push(words.last()));
    }
}

/// What explains a list of values begins with one of a few words between spaces and
/// is left out. Where several occur, the first of the words decides, not the first
/// place.
pub proof fn law_explanations_are_left_out(list: Seq<char>, rest: Seq<char>, k: int, plain: Seq<char>)
    ensures
        ({
            let words = seq![" for "@, " when "@, " where "@, " by "@, " with "@, " that "@];
            let whole = list + words[k] + rest;
            &&& (0 <= k < words.len() && text::first_from(whole, words[k], 0) == Some(list.len() as int) && (forall|j: int|
                0 <= j < k ==> !text::holds(whole, #[trigger] words[j]))) ==> enums::without_explanation(whole) == list
            &&& (forall|j: int| 0 <= j < words.len() ==> !text::holds(plain, #[trigger] words[j]))
                ==> enums::without_explanation(plain) == plain
        }),
{
    let words = seq![" for "@, " when "@, " where "@, " by "@, " with "@, " that "@];
    let whole = list + words[k] + rest;
    assert(whole.take(list.len() as int) =~= list);
    assert forall|s: Seq<char>, w: Seq<char>| !text::holds(s, w) implies #[trigger] text::first_from(s, w, 0) is None by {
        text::lemma_first_from(s, w, 0);
    }
    if 0 <= k < words.len() && forall|j: int| 0 <= j < k ==> !text::holds(whole, #[trigger] words[j]) {
        assert(k > 0 ==> !text::holds(whole, words[0]));
        assert(k > 1 ==> !text::holds(whole, words[1]));
        assert(k > 2 ==> !text::holds(whole, words[2]));
        assert(k > 3 ==> !text::holds(whole, words[3]));
        assert(k > 4 ==> !text::holds(whole, words[4]));
        assert(k == 0 || k == 1 || k == 2 || k == 3 || k == 4 || k == 5);
    }
    if forall|j: int| 0 <= j < words.len() ==> !text::holds(plain, #[trigger] words[j]) {
        assert(!text::holds(plain, words[0]));
        assert(!text::holds(plain, words[1]));
        assert(!text::holds(plain, words[2]));
        assert(!text::holds(plain, words[3]));
        assert(!text::holds(plain, words[4]));
        assert(!text::holds(plain, words[5]));
    }
}

/// A character that a value is made of: a letter or a digit of ASCII, a hyphen, an
/// underscore or a dot.
pub open spec fn is_value_char(c: char) -> bool {
    ('a' <= c && c <= 'z') || ('A' <= c && c <= 'Z') || ('0' <= c && c <= '9') || c == '-' || c == '_' || c == '.'
}

/// Letters, digits, hyphens, underscores and dots make a value of an enum, up to
/// fifty of them. What is empty, is longer, or holds a space or a brace is none.
pub proof fn law_what_reads_like_a_value(v: Seq<char>)
    ensures
        0 < v.len() <= 50 && (forall|i: int| 0 <= i < v.len() ==> is_value_char(#[trigger] v[i]))
            ==> enums::reads_like_enum_value(v),
        v.len() == 0 || v.len() > 50 || v.contains(' ') || v.contains('{') || v.contains('}')
            ==> !enums::reads_like_enum_value(v),
{
    lemma_bytes(v);
    reveal_strlit("\\u");
    if forall|i: int| 0 <= i < v.len() ==> is_value_char(#[trigger] v[i]) {
        if text::holds(v, "\\u"@) {
            let i = choose|i: int| text::stands_at(v, "\\u"@, i);
            assert(v.subrange(i, i + 2)[0] == '\\');
            assert(is_value_char(v[i]));
        }
    }
}

proof fn lemma_bytes(v: Seq<char>)
    ensures
        text::byte_len(v) >= v.len(),
        (forall|i: int| 0 <= i < v.len() ==> is_value_char(#[trigger] v[i])) ==> text::byte_len(v) == v.len(),
    decreases v.len(),
{
    if v.len() > 0 {
        lemma_bytes(v.drop_last());
        if forall|i: int| 0 <= i < v.len() ==> is_value_char(#[trigger] v[i]) {
            assert forall|i: int| 0 <= i < v.drop_last().len() implies is_value_char(#[trigger] v.drop_last()[i]) by {
                assert(v.drop_last()[i] == v[i]);
            }
            assert(is_value_char(v[v.len() - 1]));
        }
    }
}

/// What begins with a small letter or a digit, or has no small letters, does not
/// read like the name of a property. A capital with a small letter anywhere behind
/// it does.
pub proof fn law_what_reads_like_a_property(v: Seq<char>, i: int)
    requires
        text::all_ascii(v),
    ensures
        v.len() == 0 || !('A' <= v[0] && v[0] <= 'Z') ==> !enums::reads_like_property(v),
        (forall|k: int| 0 <= k < v.len() ==> !('a' <= #[trigger] v[k] && v[k] <= 'z')) ==> !enums::reads_like_property(v),
        0 < i < v.len() && 'A' <= v[0] && v[0] <= 'Z' && 'a' <= v[i] && v[i] <= 'z' ==> enums::reads_like_property(v),
{
    if v.len() > 0 {
        assert(text::is_ascii(v[0]));
    }
    if 0 < i < v.len() {
        assert(text::is_ascii(v[i]));
        assert('a' <= v[i] && v[i] <= 'z' ==> text::is_lower(v[i]));
    }
    if forall|k: int| 0 <= k < v.len() ==> !('a' <= #[trigger] v[k] && v[k] <= 'z') {
        assert forall|k: int| 0 <= k < v.len() implies !text::is_lower(#[trigger] v[k]) by {
            assert(text::is_ascii(v[k]));
        }
    }
}

} // verus!
