//! How values of enums may be written, and what they stand for.
use vstd::prelude::*;

use crate::enums;
use crate::text;
use crate::text_laws;
use crate::value::ValueView;

verus! {

/// A value is found whatever the case of its letters and whether its hyphens are
/// written as underscores; what is found is a value of the enum that the written
/// one stands for. Nothing is found exactly where it stands for none.
pub proof fn law_values_are_found_by_their_spelling(written: Seq<char>, values: Seq<Seq<char>>)
    ensures
        enums::matching(written, values) matches Some(v) ==> values.contains(v) && enums::stands_for(written, v),
        enums::matching(written, values) is None <==> forall|i: int|
            0 <= i < values.len() ==> !enums::stands_for(written, #[trigger] values[i]),
        enums::canonical(written, values) == match enums::matching(written, values) {
            Some(v) => v,
            None => written,
        },
{
    lemma_first(written, values, 0);
    assert(enums::agree(written, written));
    if values.contains(written) {
        let i = choose|i: int| 0 <= i < values.len() && values[i] == written;
        assert(enums::stands_for(written, values[i]));
    }
}

proof fn lemma_first(written: Seq<char>, values: Seq<Seq<char>>, from: int)
    requires
        0 <= from,
    ensures
        match enums::first_match(written, values, from) {
            Some(v) => exists|k: int|
                from <= k < values.len() && #[trigger] values[k] == v && enums::stands_for(written, v) && forall|j: int|
                    from <= j < k ==> !enums::stands_for(written, #[trigger] values[j]),
            None => forall|k: int| from <= k < values.len() ==> !enums::stands_for(written, #[trigger] values[k]),
        },
    decreases values.len() - from,
{
    if from < values.len() {
        if enums::stands_for(written, values[from]) {
            assert(values[from] == values[from]);
        } else {
            lemma_first(written, values, from + 1);
            if let Some(v) = enums::first_match(written, values, from + 1) {
                let k = choose|k: int|
                    from + 1 <= k < values.len() && #[trigger] values[k] == v && enums::stands_for(written, v) && forall|
                        j: int,
                    |
                        from + 1 <= j < k ==> !enums::stands_for(written, #[trigger] values[j]);
                assert(values[k] == v);
            }
        }
    }
}

/// A listed value stands for itself, and so do its forms in lower case, in upper
/// case and, where it has no underscores, with underscores for its hyphens.
pub proof fn law_forms_of_a_value_stand_for_it(value: Seq<char>)
    requires
        text::all_ascii(value),
    ensures
        enums::stands_for(value, value),
        enums::stands_for(text::lowercase(value), value),
        enums::stands_for(text::uppercase(value), value),
        !value.contains('_') ==> enums::stands_for(text::swapped(value, '-', '_'), value),
        !value.contains('_') ==> enums::stands_for(text::lowercase(text::swapped(value, '-', '_')), value),
{
    let low = text::lowercase(value);
    let up = text::uppercase(value);
    assert forall|i: int| 0 <= i < value.len() implies text::is_ascii(#[trigger] value[i]) by {}
    assert(enums::agree(low, value));
    assert(enums::agree(up, value));
    if !value.contains('_') {
        let under = text::swapped(value, '-', '_');
        assert forall|i: int| 0 <= i < value.len() implies value[i] != '_' by {
            assert(value.contains(value[i]));
        }
        assert(text::swapped(under, '_', '-') =~= value);
        assert forall|i: int| 0 <= i < under.len() implies text::is_ascii(#[trigger] under[i]) by {
            assert(text::is_ascii(value[i]));
        }
        let both = text::lowercase(under);
        assert(enums::agree(text::swapped(both, '_', '-'), value));
    }
}

/// Where no other value agrees with a listed one, each of its forms is taken for it.
pub proof fn law_forms_of_a_value_are_found(written: Seq<char>, values: Seq<Seq<char>>, i: int)
    requires
        0 <= i < values.len(),
        enums::stands_for(written, values[i]),
        forall|j: int| 0 <= j < values.len() && enums::stands_for(written, #[trigger] values[j]) ==> values[j] == values[i],
    ensures
        enums::matching(written, values) == Some(values[i]),
        enums::canonical(written, values) == values[i],
{
    law_values_are_found_by_their_spelling(written, values);
    let v = enums::matching(written, values)->0;
    let k = choose|k: int| 0 <= k < values.len() && values[k] == v;
    assert(values[k] == values[i]);
}

/// A name that begins with a capital, or one in small letters, as identifiers have
/// them.
pub open spec fn is_provider_word(p: Seq<char>) -> bool {
    enums::all_lower(p) && !p.contains('.')
}

/// An identifier in full is the provider, the resource, the type and the value
/// between dots; the value is what the service is sent, with hyphens for
/// underscores. What has no dots is sent as it is.
pub proof fn law_identifiers_end_in_their_value(
    provider: Seq<char>,
    service: Seq<char>,
    resource: Seq<char>,
    typename: Seq<char>,
    value: Seq<char>,
)
    requires
        is_provider_word(provider),
        enums::capitalised(typename),
        !typename.contains('.'),
        !resource.contains('.'),
        !service.contains('.'),
        !value.contains('.'),
    ensures
        ({
            let sent = text::swapped(value, '_', '-');
            let two = typename + "."@ + value;
            let three = provider + "."@ + typename + "."@ + value;
            let four = provider + "."@ + resource + "."@ + typename + "."@ + value;
            let five = provider + "."@ + service + "."@ + resource + "."@ + typename + "."@ + value;
            &&& enums::provider_spelling(two, enums::long_identifier(enums::parts(two))) == sent
            &&& enums::provider_spelling(three, enums::long_identifier(enums::parts(three))) == sent
            &&& enums::provider_spelling(four, enums::long_identifier(enums::parts(four))) == sent
            &&& enums::provider_spelling(five, enums::long_identifier(enums::parts(five))) == sent
            &&& enums::provider_spelling(two, enums::short_identifier(enums::parts(two))) == sent
            &&& enums::provider_spelling(three, enums::short_identifier(enums::parts(three))) == sent
            &&& enums::provider_spelling(four, enums::short_identifier(enums::parts(four))) == sent
            &&& enums::provider_spelling(five, enums::short_identifier(enums::parts(five))) == five
            &&& enums::provider_spelling(value, enums::long_identifier(enums::parts(value))) == value
            &&& enums::provider_spelling(value, enums::short_identifier(enums::parts(value))) == value
            &&& enums::last_part(two) == value && enums::last_part(three) == value && enums::last_part(four) == value
                && enums::last_part(five) == value && enums::last_part(value) == value
        }),
{
    lemma_parts(provider);
    lemma_parts(typename);
    lemma_parts(value);
    enums::lemma_last_part(typename, value);
    assert(enums::parts(typename + "."@ + value) =~= seq![typename, value]);
    enums::lemma_last_part(provider, typename);
    enums::lemma_last_part(provider + "."@ + typename, value);
    assert(enums::parts(provider + "."@ + typename + "."@ + value) =~= seq![provider, typename, value]);
    enums::lemma_last_part(provider, resource);
    enums::lemma_last_part(provider + "."@ + resource, typename);
    enums::lemma_last_part(provider + "."@ + resource + "."@ + typename, value);
    assert(enums::parts(provider + "."@ + resource + "."@ + typename + "."@ + value) =~= seq![
        provider,
        resource,
        typename,
        value,
    ]);
    enums::lemma_last_part(provider, service);
    enums::lemma_last_part(provider + "."@ + service, resource);
    enums::lemma_last_part(provider + "."@ + service + "."@ + resource, typename);
    enums::lemma_last_part(provider + "."@ + service + "."@ + resource + "."@ + typename, value);
    assert(enums::parts(provider + "."@ + service + "."@ + resource + "."@ + typename + "."@ + value) =~= seq![
        provider,
        service,
        resource,
        typename,
        value,
    ]);
}

proof fn lemma_parts(s: Seq<char>)
    requires
        !s.contains('.'),
    ensures
        enums::parts(s) == seq![s],
{
    reveal_strlit(".");
    assert("."@ =~= seq!['.']);
    text_laws::lemma_apart(s, '.');
    text_laws::law_joining_undoes_splitting(s, "."@);
    text_laws::law_pieces_hold_no_separator(s, "."@, 0);
}

/// A value of an enum with a namespace is accepted without dots, behind the name of
/// the enum, and behind the namespace and that name, if it stands for a listed
/// value. Behind another name it is refused with the three forms, and one that is
/// not listed is refused with the list. What is no text is refused.
pub proof fn law_enum_values_are_checked(
    value: Seq<char>,
    name: Seq<char>,
    namespace: Seq<char>,
    values: Seq<Seq<char>>,
    other: Seq<char>,
)
    requires
        !value.contains('.'),
        !other.contains('.'),
        other != name,
    ensures
        ({
            let listed = exists|i: int| 0 <= i < values.len() && enums::stands_for(value, #[trigger] values[i]);
            let refused = Some("expected one of: "@ + text::join(values, ", "@));
            let bare = enums::enum_fault(ValueView::String(value), name, namespace, values);
            let short = enums::enum_fault(ValueView::String(name + "."@ + value), name, namespace, values);
            let full = enums::enum_fault(
                ValueView::String(enums::qualified(namespace, name, value)),
                name,
                namespace,
                values,
            );
            &&& listed ==> bare is None && short is None && full is None
            &&& !listed ==> bare == refused && short == refused && full == refused
            &&& !text::begins_with(other + "."@ + value, name + "."@) && !text::begins_with(
                other + "."@ + value,
                namespace + "."@ + name + "."@,
            ) ==> enums::enum_fault(ValueView::String(other + "."@ + value), name, namespace, values) == Some(
                "expected the form value, "@ + name + ".value or "@ + namespace + "."@ + name + ".value"@,
            )
        }),
{
    law_values_are_found_by_their_spelling(value, values);
    let listed = exists|i: int| 0 <= i < values.len() && enums::stands_for(value, #[trigger] values[i]);
    reveal_strlit(".");
    assert("."@ =~= seq!['.']);
    lemma_parts(value);
    text_laws::lemma_apart(value, '.');
    let short = name + "."@ + value;
    let full = enums::qualified(namespace, name, value);
    enums::lemma_last_part(name, value);
    enums::lemma_last_part(namespace + "."@ + name, value);
    assert(full =~= namespace + "."@ + name + "."@ + value);
    let lead = name + "."@;
    assert(short.subrange(0, lead.len() as int) =~= lead);
    let head = namespace + "."@ + name + "."@;
    assert(full.subrange(0, head.len() as int) =~= head);
    let wrong = other + "."@ + value;
    assert(wrong.subrange(other.len() as int, (other.len() + 1) as int) =~= "."@);
    assert(text::stands_at(wrong, "."@, other.len() as int));
    assert(text::holds(wrong, "."@));
}

/// What is no text is no value of an enum.
pub proof fn law_only_texts_are_enum_values(
    v: ValueView,
    name: Seq<char>,
    namespace: Seq<char>,
    values: Seq<Seq<char>>,
)
    requires
        !(v is String),
    ensures
        enums::enum_fault(v, name, namespace, values) == Some("Expected string"@),
{
}

} // verus!
