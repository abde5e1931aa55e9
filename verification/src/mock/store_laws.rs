//! What the mock provider keeps, and what it reports of it.
use vstd::prelude::*;

use crate::json::JsonView;
use crate::keyed;
use crate::mock::store;
use crate::mock::store::{OutcomeView, PartialView};
use crate::provider::round_trip;
use crate::resource::IdView;
use crate::text;
use crate::text_laws;
use crate::value::ValueView;

verus! {

/// Resources with names without dots are kept apart exactly by their types and
/// names, whatever their providers.
pub proof fn law_keys_tell_resources_apart(a: IdView, b: IdView)
    requires
        !a.name.contains('.'),
        !b.name.contains('.'),
    ensures
        store::key_of(a) == store::key_of(b) <==> a.resource_type == b.resource_type && a.name == b.name,
        store::full_key_of(a) == a.provider + "."@ + store::key_of(a),
{
    reveal_strlit(".");
    assert(store::full_key_of(a) =~= a.provider + "."@ + store::key_of(a));
    if store::key_of(a) == store::key_of(b) {
        let s = store::key_of(a);
        let m: int = a.resource_type.len() as int;
        let n: int = b.resource_type.len() as int;
        assert(s[m] == '.' && s[n] == '.');
        if m < n {
            assert(a.name[n - m - 1] == s[n]);
        } else if n < m {
            assert(b.name[m - n - 1] == store::key_of(b)[m]);
        }
        assert(m == n);
        assert(s.take(m) =~= a.resource_type);
        assert(store::key_of(b).take(m) =~= b.resource_type);
        assert(s.skip(m + 1) =~= a.name);
        assert(store::key_of(b).skip(m + 1) =~= b.name);
    }
}

/// A star stands for every resource, and a key, with or without the provider, for
/// its own. Where no setting stands for a resource, it lacks nothing.
pub proof fn law_patterns_stand_for_resources(c: PartialView, id: IdView)
    ensures
        store::matches_pattern("*"@, id),
        store::matches_pattern(store::key_of(id), id),
        store::matches_pattern(store::full_key_of(id), id),
        c.resource_id_pattern != "*"@ && c.resource_id_pattern != store::key_of(id) && c.resource_id_pattern
            != store::full_key_of(id) ==> store::missing_for(Some(c), id) is None,
        c.resource_id_pattern == "*"@ ==> store::missing_for(Some(c), id) == Some(c.missing_attributes),
        c.resource_id_pattern == store::key_of(id) ==> store::missing_for(Some(c), id) == Some(c.missing_attributes),
        store::missing_for(None, id) is None,
{
}

/// A setting lists names between commas, with white space around them or not; empty
/// ones are left out. Without the setting it is `computed` that is missing.
pub proof fn law_missing_names_are_listed(pieces: Seq<Seq<char>>, names: Seq<Seq<char>>, piece: Seq<char>)
    requires
        pieces.len() > 0,
        pieces.len() == names.len(),
        forall|i: int|
            0 <= i < pieces.len() ==> !(#[trigger] pieces[i]).contains(',') && text::trimmed(pieces[i]) == names[i]
                && names[i].len() > 0,
    ensures
        store::missing_names(Some(text::join(pieces, ","@))) == names,
        store::missing_names(None) == seq!["computed"@],
        text::trimmed(piece).len() == 0 ==> store::listed_names(pieces.push(piece)) == store::listed_names(pieces),
{
    reveal_strlit(",");
    assert(","@ =~= seq![',']);
    text_laws::law_splitting_undoes_joining(pieces, ',');
    lemma_listed(pieces, names);
    assert(store::missing_names(None) =~= seq!["computed"@]);
    assert(pieces.push(piece).drop_last() =~= pieces);
}

proof fn lemma_listed(pieces: Seq<Seq<char>>, names: Seq<Seq<char>>)
    requires
        pieces.len() == names.len(),
        forall|i: int|
            0 <= i < pieces.len() ==> text::trimmed(#[trigger] pieces[i]) == names[i] && names[i].len() > 0,
    ensures
        store::listed_names(pieces) == names,
    decreases pieces.len(),
{
    if pieces.len() > 0 {
        let before = pieces.drop_last();
        let front = names.drop_last();
        assert forall|i: int| 0 <= i < before.len() implies text::trimmed(#[trigger] before[i]) == front[i]
            && front[i].len() > 0 by {
            assert(before[i] == pieces[i]);
        }
        lemma_listed(before, front);
        assert(text::trimmed(pieces[pieces.len() - 1]) == names[names.len() - 1]);
        assert(names =~= front.push(names.last()));
    }
    assert(store::listed_names(pieces) =~= names);
}

/// What is made in part lacks the named attributes and has all others.
pub proof fn law_named_attributes_are_left_out(
    attributes: Seq<(Seq<char>, ValueView)>,
    names: Seq<Seq<char>>,
    key: Seq<char>,
)
    requires
        keyed::distinct_keys(attributes),
    ensures
        names.contains(key) ==> keyed::lookup(store::left(attributes, Some(names)), key) is None,
        !names.contains(key) ==> keyed::lookup(store::left(attributes, Some(names)), key) == keyed::lookup(attributes, key),
        store::left(attributes, None) == attributes,
        keyed::distinct_keys(store::left(attributes, Some(names))),
    decreases names.len(),
{
    if names.len() > 0 {
        let before = names.drop_last();
        law_named_attributes_are_left_out(attributes, before, key);
        let m = store::stripped(attributes, before);
        keyed::law_without_then_lookup(m, names.last(), key);
        assert(names =~= before.push(names.last()));
        if names.contains(key) && key != names.last() {
            let i = choose|i: int| 0 <= i < names.len() && names[i] == key;
            assert(before[i] == key);
        }
        if before.contains(key) {
            let i = choose|i: int| 0 <= i < before.len() && before[i] == key;
            assert(names[i] == key);
        }
        if key == names.last() {
            assert(names[names.len() - 1] == key);
        }
    }
}

/// A test resource without an identifier is given one where that is enabled: its
/// attribute `name`, or its own name, with `-id` behind it. Its other attributes
/// stay, and so do all other resources.
pub proof fn law_test_resources_are_identified(
    id: IdView,
    attributes: Seq<(Seq<char>, ValueView)>,
    name: Seq<char>,
    key: Seq<char>,
)
    ensures
        ({
            let made = store::identified(id, attributes, true);
            let due = id.resource_type == "test.resource"@ && keyed::lookup(attributes, "identifier"@) is None;
            &&& due && keyed::lookup(attributes, "name"@) == Some(ValueView::String(name)) ==> keyed::lookup(
                made,
                "identifier"@,
            ) == Some(ValueView::String(name + "-id"@))
            &&& due && keyed::lookup(attributes, "name"@) is None ==> keyed::lookup(made, "identifier"@) == Some(
                ValueView::String(id.name + "-id"@),
            )
            &&& key != "identifier"@ ==> keyed::lookup(made, key) == keyed::lookup(attributes, key)
            &&& !due ==> made == attributes
        }),
        store::identified(id, attributes, false) == attributes,
{
    let made = ValueView::String(store::test_identifier(id, attributes));
    keyed::law_set_then_lookup(attributes, "identifier"@, made, key);
}

/// The attribute that cannot be kept is the first one with an unresolved part; there
/// is none exactly where all can be kept.
pub proof fn law_unstorable_attributes_are_named(attributes: Seq<(Seq<char>, ValueView)>, k: int)
    ensures
        store::first_unstorable(attributes, 0) is None <==> store::all_storable(attributes),
        0 <= k < attributes.len() && !round_trip::all_resolved(attributes[k].1) && (forall|i: int|
            0 <= i < k ==> round_trip::all_resolved((#[trigger] attributes[i]).1)) ==> store::first_unstorable(
            attributes,
            0,
        ) == Some(attributes[k].0),
{
    lemma_unstorable(attributes, 0);
    if 0 <= k < attributes.len() && !round_trip::all_resolved(attributes[k].1) && forall|i: int|
        0 <= i < k ==> round_trip::all_resolved((#[trigger] attributes[i]).1) {
        let i = choose|i: int|
            0 <= i < attributes.len() && store::first_unstorable(attributes, 0) == Some((#[trigger] attributes[i]).0)
                && !round_trip::all_resolved(attributes[i].1) && forall|j: int|
                0 <= j < i ==> round_trip::all_resolved((#[trigger] attributes[j]).1);
        if i < k {
            assert(round_trip::all_resolved(attributes[i].1));
        }
        if k < i {
            assert(round_trip::all_resolved(attributes[k].1));
        }
    }
}

proof fn lemma_unstorable(attributes: Seq<(Seq<char>, ValueView)>, from: int)
    requires
        0 <= from,
    ensures
        store::first_unstorable(attributes, from) is None ==> forall|i: int|
            from <= i < attributes.len() ==> round_trip::all_resolved((#[trigger] attributes[i]).1),
        store::first_unstorable(attributes, from) is Some ==> exists|i: int|
            from <= i < attributes.len() && store::first_unstorable(attributes, from) == Some((#[trigger] attributes[i]).0)
                && !round_trip::all_resolved(attributes[i].1) && forall|j: int|
                from <= j < i ==> round_trip::all_resolved((#[trigger] attributes[j]).1),
    decreases attributes.len() - from,
{
    if from < attributes.len() {
        if round_trip::all_resolved(attributes[from].1) {
            lemma_unstorable(attributes, from + 1);
            if store::first_unstorable(attributes, from + 1) is Some {
                let i = choose|i: int|
                    from + 1 <= i < attributes.len() && store::first_unstorable(attributes, from + 1) == Some(
                        (#[trigger] attributes[i]).0,
                    ) && !round_trip::all_resolved(attributes[i].1) && forall|j: int|
                        from + 1 <= j < i ==> round_trip::all_resolved((#[trigger] attributes[j]).1);
                assert(store::first_unstorable(attributes, from) == Some(attributes[i].0));
            }
        } else {
            assert(store::first_unstorable(attributes, from) == Some(attributes[from].0));
        }
    }
}

/// A create or an update reports the state that a read then gives. It is a success
/// exactly where nothing is missing, and else names what is.
pub proof fn law_reports_tell_what_is_kept(
    states: Seq<(Seq<char>, Seq<(Seq<char>, JsonView)>)>,
    id: IdView,
    attributes: Seq<(Seq<char>, ValueView)>,
    names: Seq<Seq<char>>,
    reason: Seq<char>,
)
    requires
        store::all_storable(attributes),
    ensures
        store::reported(id, attributes, None, reason) == (OutcomeView::Success {
            state: store::read_from(store::stored(states, id, attributes, None), id),
        }),
        store::reported(id, attributes, Some(names), reason) == (OutcomeView::Partial {
            state: store::read_from(store::stored(states, id, attributes, Some(names)), id),
            reason,
            missing: names,
        }),
        store::read_from(store::stored(states, id, attributes, None), id).exists,
        store::read_from(store::stored(states, id, attributes, None), id).attributes == attributes,
        store::read_from(store::stored(states, id, attributes, None), id).identifier == Some("mock-id"@),
        store::read_from(store::stored(states, id, attributes, None), id).id == id,
{
    store::law_read_after_write(states, id, attributes, None, id);
    store::law_read_after_write(states, id, attributes, Some(names), id);
}

/// The line of an operation is the operation and the key of the resource.
pub proof fn law_log_lines_name_the_resource(op: Seq<char>, id: IdView)
    ensures
        store::log_line(op, id) == op + " "@ + id.resource_type + "."@ + id.name,
{
    assert(store::log_line(op, id) =~= op + " "@ + id.resource_type + "."@ + id.name);
}

/// A setting asks for as many milliseconds as the number that it is, and for none
/// where that is zero or too large.
pub proof fn law_delays_are_read(n: nat)
    ensures
        store::delay_of(Some(text::decimal(n as int))) == if 0 < n <= u64::MAX {
            Some(n)
        } else {
            None
        },
        store::delay_of(None) is None,
{
    text_laws::law_decimals_are_read_back(n);
}

/// A file that cannot be read holds nothing, and one that can holds what it says.
pub proof fn law_unreadable_files_hold_nothing(
    m: Seq<(Seq<char>, Seq<(Seq<char>, JsonView)>)>,
    reason: Seq<char>,
    id: IdView,
)
    ensures
        store::states_in(Ok(m)) == m,
        store::states_in(Err(reason)).len() == 0,
        !store::read_from(store::states_in(Err(reason)), id).exists,
        store::read_from(store::states_in(Err(reason)), id).id == id,
{
}

/// What is refused is named: the resource whose create is to fail, and the attribute
/// that cannot be kept.
pub proof fn law_refusals_name_their_subject(id: IdView, name: Seq<char>)
    ensures
        store::create_refused(id).message == "CARINA_MOCK_CREATE_FAIL_FOR requested create failure for "@
            + id.resource_type + "."@ + id.name,
        store::unstorable(name).message == "Failed to convert value: "@ + name,
{
    assert(store::create_refused(id).message =~= "CARINA_MOCK_CREATE_FAIL_FOR requested create failure for "@
        + id.resource_type + "."@ + id.name);
}

} // verus!
