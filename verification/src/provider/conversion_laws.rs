//! What conversions do with each form of a value and of a document.
use vstd::prelude::*;

use crate::enum_laws;
use crate::enums;
use crate::json::{JsonNumber, JsonView};
use crate::keyed;
use crate::provider::convert;
use crate::provider::normalizer;
use crate::provider::round_trip;
use crate::schema;
use crate::schema::{CheckView, FieldView, ToDslView, TypeView};
use crate::schemas::registry;
use crate::text;
use crate::value;
use crate::value::{Float, ValueView};

verus! {

/// An identifier of three parts: the namespace, the type and the value.
pub open spec fn dotted(namespace: Seq<char>, name: Seq<char>, value: Seq<char>) -> Seq<char> {
    namespace + "."@ + name + "."@ + value
}

/// A value that is spelled in the configuration language as it is, or with
/// underscores for its hyphens, and that no other value of the enum can be
/// mistaken for.
pub open spec fn is_clear(values: Seq<Seq<char>>, value: Seq<char>, spelling: Seq<char>, identifier: Seq<char>) -> bool {
    &&& values.contains(value)
    &&& forall|u: Seq<char>|
        values.contains(u) && u != value ==> u != identifier && !#[trigger] text::finishes_with(identifier, "."@ + u)
    &&& spelling == value || {
        &&& !value.contains('_')
        &&& !value.contains('.')
        &&& spelling.len() == value.len()
        &&& forall|i: int|
            0 <= i < value.len() ==> #[trigger] spelling[i] == if value[i] == '-' {
                '_'
            } else {
                value[i]
            }
        &&& forall|u: Seq<char>| values.contains(u) && #[trigger] enums::stands_for(spelling, u) ==> u == value
    }
}

/// A value of an enum is sent as itself, whether it is written alone or behind
/// the name of any type: the name of the type is never sent.
pub proof fn law_listed_value_is_sent(
    name: Seq<char>,
    values: Seq<Seq<char>>,
    namespace: Seq<char>,
    form: Option<ToDslView>,
    written_type: Seq<char>,
    value: Seq<char>,
    resource_type: Seq<char>,
    attribute: Seq<char>,
)
    requires
        values.contains(value),
        registry::alias_target(resource_type, attribute, value) is None,
    ensures
        ({
            let t = TypeView::StringEnum { name, values, namespace: Some(namespace), to_dsl: form };
            let sent = Some(JsonView::String(value));
            &&& convert::to_aws(ValueView::UnresolvedIdent(written_type, Some(value)), t, resource_type, attribute) == sent
            &&& convert::to_aws(ValueView::UnresolvedIdent(value, None), t, resource_type, attribute) == sent
        }),
{
}

/// A value of an enum is sent as itself when it is written in full, and in the
/// spelling of the configuration language.
pub proof fn law_full_form_is_sent(
    name: Seq<char>,
    values: Seq<Seq<char>>,
    namespace: Seq<char>,
    form: Option<ToDslView>,
    value: Seq<char>,
    spelling: Seq<char>,
    resource_type: Seq<char>,
    attribute: Seq<char>,
)
    requires
        is_clear(values, value, spelling, dotted(namespace, name, spelling)),
        registry::alias_target(resource_type, attribute, value) is None,
    ensures
        convert::to_aws(
            ValueView::String(dotted(namespace, name, spelling)),
            TypeView::StringEnum { name, values, namespace: Some(namespace), to_dsl: form },
            resource_type,
            attribute,
        ) == Some(JsonView::String(value)),
{
    let t = TypeView::StringEnum { name, values, namespace: Some(namespace), to_dsl: form };
    let q = dotted(namespace, name, spelling);
    let n = choose|n: int| 0 <= n < values.len() && values[n] == value;
    assert forall|u: Seq<char>| values.contains(u) && #[trigger] round_trip::may_name(q, u) implies u == value by {
        if u != value {
            assert(!text::finishes_with(q, "."@ + u));
        }
    }
    if round_trip::may_name(q, value) {
        round_trip::lemma_final_value(q, values, 0, n);
    } else {
        if spelling == value {
            let tail = "."@ + value;
            assert(q.subrange(q.len() - tail.len(), q.len() as int) =~= tail);
        }
        assert forall|u: Seq<char>| values.contains(u) implies !#[trigger] round_trip::may_name(q, u) by {}
        round_trip::lemma_no_final_value(q, values, 0);
        if spelling.contains('.') {
            let i = choose|i: int| 0 <= i < spelling.len() && spelling[i] == '.';
            assert(value[i] == '.');
        }
        enums::lemma_last_part(namespace + "."@ + name, spelling);
        assert(text::swapped(spelling, '_', '-') =~= value) by {
            assert forall|i: int| 0 <= i < value.len() implies value[i] != '_' by {
                assert(value.contains(value[i]));
            }
        }
        assert(enums::stands_for(spelling, value));
        if values.contains(spelling) {
            assert(enums::stands_for(spelling, spelling));
        } else {
            round_trip::lemma_first_match(spelling, values, 0, n);
        }
    }
}

/// Bringing an identifier into full form does not change what is sent for it.
pub proof fn law_resolving_keeps_what_is_sent(
    name: Seq<char>,
    values: Seq<Seq<char>>,
    namespace: Seq<char>,
    form: Option<ToDslView>,
    value: Seq<char>,
    resource_type: Seq<char>,
    attribute: Seq<char>,
)
    requires
        is_clear(values, value, schema::spelled(form, value), dotted(namespace, name, schema::spelled(form, value))),
        registry::alias_target(resource_type, attribute, value) is None,
    ensures
        ({
            let t = TypeView::StringEnum { name, values, namespace: Some(namespace), to_dsl: form };
            forall|v: ValueView|
                v == ValueView::UnresolvedIdent(value, None) || v == ValueView::UnresolvedIdent(name, Some(value))
                    ==> convert::to_aws(
                    #[trigger] normalizer::resolved_enum(v, name, namespace, form),
                    t,
                    resource_type,
                    attribute,
                ) == convert::to_aws(v, t, resource_type, attribute)
        }),
{
    let dsl = schema::spelled(form, value);
    law_full_form_is_sent(name, values, namespace, form, value, dsl, resource_type, attribute);
    law_listed_value_is_sent(name, values, namespace, form, name, value, resource_type, attribute);
}

/// A value that differs from one of the enum in the case of letters, or in
/// underscores for hyphens, is sent as that one, if it can be no other.
pub proof fn law_spelling_does_not_matter(
    name: Seq<char>,
    values: Seq<Seq<char>>,
    namespace: Seq<char>,
    form: Option<ToDslView>,
    written: Seq<char>,
    value: Seq<char>,
    resource_type: Seq<char>,
    attribute: Seq<char>,
)
    requires
        values.contains(value),
        !value.contains('_'),
        written.len() == value.len(),
        forall|i: int|
            0 <= i < value.len() ==> text::ascii_lower(#[trigger] written[i]) == text::ascii_lower(value[i]) || (written[i]
                == '_' && value[i] == '-'),
        forall|u: Seq<char>| values.contains(u) && #[trigger] enums::stands_for(written, u) ==> u == value,
        registry::alias_target(resource_type, attribute, value) is None,
    ensures
        convert::to_aws(
            ValueView::UnresolvedIdent(written, None),
            TypeView::StringEnum { name, values, namespace: Some(namespace), to_dsl: form },
            resource_type,
            attribute,
        ) == Some(JsonView::String(value)),
{
    let n = choose|n: int| 0 <= n < values.len() && values[n] == value;
    let swapped = text::swapped(written, '_', '-');
    assert forall|i: int| 0 <= i < value.len() implies text::ascii_lower(#[trigger] swapped[i]) == text::ascii_lower(
        value[i],
    ) by {
        assert(value.contains(value[i]));
        assert(text::ascii_lower(written[i]) == text::ascii_lower(value[i]) || (written[i] == '_' && value[i] == '-'));
    }
    assert(enums::stands_for(written, value));
    if values.contains(written) {
        assert(enums::stands_for(written, written));
    } else {
        round_trip::lemma_first_match(written, values, 0, n);
    }
}

/// What has another name at the provider is sent under that name, whether it is
/// written alone or behind the name of any type.
pub proof fn law_alias_is_sent(
    name: Seq<char>,
    values: Seq<Seq<char>>,
    namespace: Seq<char>,
    form: Option<ToDslView>,
    written_type: Seq<char>,
    value: Seq<char>,
    target: Seq<char>,
    resource_type: Seq<char>,
    attribute: Seq<char>,
)
    requires
        values.contains(value),
        registry::alias_target(resource_type, attribute, value) == Some(target),
    ensures
        ({
            let t = TypeView::StringEnum { name, values, namespace: Some(namespace), to_dsl: form };
            let sent = Some(JsonView::String(target));
            &&& convert::to_aws(ValueView::UnresolvedIdent(written_type, Some(value)), t, resource_type, attribute) == sent
            &&& convert::to_aws(ValueView::UnresolvedIdent(value, None), t, resource_type, attribute) == sent
        }),
{
}

/// A value of an enum whose values are only checked is sent with hyphens for
/// underscores, whether it is written alone or behind the name of any type, and
/// under the name that it has at the provider, if that is another.
pub proof fn law_checked_value_is_sent(
    name: Seq<char>,
    base: TypeView,
    check: CheckView,
    namespace: Seq<char>,
    form: Option<ToDslView>,
    written_type: Seq<char>,
    written: Seq<char>,
    value: Seq<char>,
    resource_type: Seq<char>,
    attribute: Seq<char>,
)
    requires
        written.len() == value.len(),
        forall|i: int|
            0 <= i < value.len() ==> #[trigger] value[i] == if written[i] == '_' {
                '-'
            } else {
                written[i]
            },
    ensures
        ({
            let t = TypeView::Custom { name, base: Box::new(base), check, namespace: Some(namespace), to_dsl: form };
            let sent = match registry::alias_target(resource_type, attribute, value) {
                Some(target) => Some(JsonView::String(target)),
                None => Some(JsonView::String(value)),
            };
            &&& convert::to_aws(ValueView::UnresolvedIdent(written_type, Some(written)), t, resource_type, attribute) == sent
            &&& convert::to_aws(ValueView::UnresolvedIdent(written, None), t, resource_type, attribute) == sent
        }),
{
    assert(text::swapped(written, '_', '-') =~= value);
}

/// An identifier in full form of an enum whose values are only checked names its
/// last part. The namespace has between one and three parts, of which the first
/// is in lower case, and the name of the enum is capitalised.
pub proof fn law_checked_full_form_is_sent(
    name: Seq<char>,
    base: TypeView,
    check: CheckView,
    namespace: Seq<char>,
    form: Option<ToDslView>,
    written: Seq<char>,
    resource_type: Seq<char>,
    attribute: Seq<char>,
)
    requires
        !written.contains('.'),
        !name.contains('.'),
        enums::capitalised(name),
        1 <= enums::parts(namespace).len() <= 3,
        enums::all_lower(enums::parts(namespace)[0]),
    ensures
        ({
            let t = TypeView::Custom { name, base: Box::new(base), check, namespace: Some(namespace), to_dsl: form };
            convert::to_aws(ValueView::String(dotted(namespace, name, written)), t, resource_type, attribute)
                == convert::to_aws(ValueView::UnresolvedIdent(written, None), t, resource_type, attribute)
        }),
{
    enums::lemma_last_part(namespace, name);
    enums::lemma_last_part(namespace + "."@ + name, written);
    let p = enums::parts(dotted(namespace, name, written));
    assert(p == enums::parts(namespace).push(name).push(written));
    assert(p[0] == enums::parts(namespace)[0]);
    assert(p[p.len() - 2] == name);
    assert(enums::long_identifier(p) == Some(written));
}

/// A value that the provider returns is read as its full form: the namespace, the
/// name of the enum and the value, with underscores for hyphens where the enum
/// asks for it.
pub proof fn law_listed_value_is_read(
    name: Seq<char>,
    values: Seq<Seq<char>>,
    namespace: Seq<char>,
    underscores: bool,
    value: Seq<char>,
    spelling: Seq<char>,
    resource_type: Seq<char>,
    attribute: Seq<char>,
)
    requires
        values.contains(value),
        spelling.len() == value.len(),
        forall|i: int|
            0 <= i < value.len() ==> #[trigger] spelling[i] == if underscores && value[i] == '-' {
                '_'
            } else {
                value[i]
            },
    ensures
        ({
            let form = if underscores {
                Some(ToDslView { aliases: Seq::empty(), underscores: true })
            } else {
                None
            };
            let t = TypeView::StringEnum { name, values, namespace: Some(namespace), to_dsl: form };
            convert::to_dsl(attribute, JsonView::String(value), t, resource_type) == Some(
                ValueView::String(dotted(namespace, name, spelling)),
            )
        }),
{
    if underscores {
        assert(text::swapped(value, '-', '_') =~= spelling);
    } else {
        assert(value =~= spelling);
    }
}

/// A truth value and a number are sent as they are, whatever the type.
pub proof fn law_scalars_are_sent(v: ValueView, t: TypeView, resource_type: Seq<char>, attribute: Seq<char>)
    ensures
        v matches ValueView::Bool(b) ==> convert::to_aws(v, t, resource_type, attribute) == Some(JsonView::Bool(b)),
        v matches ValueView::Int(n) && n >= 0 ==> convert::to_aws(v, t, resource_type, attribute) == Some(
            JsonView::Number(JsonNumber::PosInt(v->Int_0 as u64)),
        ),
        v matches ValueView::Int(n) && n < 0 ==> convert::to_aws(v, t, resource_type, attribute) == Some(
            JsonView::Number(JsonNumber::NegInt(v->Int_0)),
        ),
        v matches ValueView::Float(f) ==> convert::to_aws(v, t, resource_type, attribute) == if value::float_finite(f) {
            Some(JsonView::Number(JsonNumber::Float(f)))
        } else {
            None
        },
    decreases t,
{
    if let TypeView::Union(members) = t {
        lemma_scalar_in_union(v, members, 0, resource_type, attribute);
    }
}

proof fn lemma_scalar_in_union(v: ValueView, members: Seq<TypeView>, i: int, resource_type: Seq<char>, attribute: Seq<char>)
    requires
        0 <= i,
    ensures
        v is Bool || v is Int || v is Float ==> convert::member_to_aws(v, members, i, resource_type, attribute) is None
            || convert::member_to_aws(v, members, i, resource_type, attribute) == convert::plain_json(v),
    decreases members, members.len() - i,
{
    if i < members.len() {
        law_scalars_are_sent(v, members[i], resource_type, attribute);
        lemma_scalar_in_union(v, members, i + 1, resource_type, attribute);
    }
}

/// A text is sent as it is, and an identifier that is not resolved is not sent,
/// unless the type is an enum with a namespace or a union.
pub proof fn law_text_is_sent(s: Seq<char>, member: Option<Seq<char>>, t: TypeView, resource_type: Seq<char>, attribute: Seq<char>)
    requires
        !(t is StringEnum),
        !(t is Custom && t->Custom_namespace is Some),
        !(t is Union),
    ensures
        convert::to_aws(ValueView::String(s), t, resource_type, attribute) == Some(JsonView::String(s)),
        convert::to_aws(ValueView::UnresolvedIdent(s, member), t, resource_type, attribute) is None,
{
}

/// What the provider returns is read as it is where it is a truth value or a
/// number, and as nothing where it is null, whatever the type.
pub proof fn law_scalars_are_read(name: Seq<char>, j: JsonView, t: TypeView, resource_type: Seq<char>)
    ensures
        j is Null ==> convert::to_dsl(name, j, t, resource_type) is None,
        j matches JsonView::Bool(b) ==> convert::to_dsl(name, j, t, resource_type) == Some(ValueView::Bool(b)),
        j matches JsonView::Number(JsonNumber::PosInt(n)) && n <= i64::MAX ==> convert::to_dsl(name, j, t, resource_type)
            == Some(ValueView::Int(j->Number_0->PosInt_0 as i64)),
        j matches JsonView::Number(JsonNumber::NegInt(n)) ==> convert::to_dsl(name, j, t, resource_type) == Some(
            ValueView::Int(n),
        ),
        j matches JsonView::Number(JsonNumber::Float(f)) ==> convert::to_dsl(name, j, t, resource_type) == Some(
            ValueView::Float(f),
        ),
    decreases t,
{
    if let TypeView::Union(members) = t {
        lemma_scalar_from_union(name, j, members, 0, resource_type);
    }
}

proof fn lemma_scalar_from_union(name: Seq<char>, j: JsonView, members: Seq<TypeView>, i: int, resource_type: Seq<char>)
    requires
        0 <= i,
    ensures
        j is Null || j is Bool || j is Number ==> convert::member_to_dsl(name, j, members, i, resource_type) is None
            || convert::member_to_dsl(name, j, members, i, resource_type) == convert::plain_value(j),
    decreases members, members.len() - i,
{
    if i < members.len() {
        law_scalars_are_read(name, j, members[i], resource_type);
        if j matches JsonView::Number(JsonNumber::PosInt(n)) && n > i64::MAX {
            lemma_great_number(name, j, members[i], resource_type);
        }
        lemma_scalar_from_union(name, j, members, i + 1, resource_type);
    }
}

proof fn lemma_great_number(name: Seq<char>, j: JsonView, t: TypeView, resource_type: Seq<char>)
    requires
        j is Number,
    ensures
        convert::to_dsl(name, j, t, resource_type) == convert::plain_value(j),
    decreases t,
{
    if let TypeView::Union(members) = t {
        lemma_great_in_union(name, j, members, 0, resource_type);
    }
}

proof fn lemma_great_in_union(name: Seq<char>, j: JsonView, members: Seq<TypeView>, i: int, resource_type: Seq<char>)
    requires
        0 <= i,
        j is Number,
    ensures
        convert::member_to_dsl(name, j, members, i, resource_type) is None || convert::member_to_dsl(
            name,
            j,
            members,
            i,
            resource_type,
        ) == convert::plain_value(j),
    decreases members, members.len() - i,
{
    if i < members.len() {
        lemma_great_number(name, j, members[i], resource_type);
        lemma_great_in_union(name, j, members, i + 1, resource_type);
    }
}

/// A text that the provider returns is read as it is, unless its type is an enum
/// with a namespace or a union.
pub proof fn law_text_is_read(name: Seq<char>, s: Seq<char>, t: TypeView, resource_type: Seq<char>)
    requires
        !(t is StringEnum),
        !(t is Custom && t->Custom_namespace is Some),
        !(t is Union),
    ensures
        convert::to_dsl(name, JsonView::String(s), t, resource_type) == Some(ValueView::String(s)),
{
}

/// Lists are sent item by item, in order: an empty list as one, a list of one
/// item as a list of what the item is sent as, and two lists behind each other as
/// what they are sent as behind each other.
pub proof fn law_lists_are_sent(
    a: Seq<ValueView>,
    b: Seq<ValueView>,
    v: ValueView,
    inner: TypeView,
    ordered: bool,
    resource_type: Seq<char>,
    attribute: Seq<char>,
)
    ensures
        ({
            let t = TypeView::List { inner: Box::new(inner), ordered };
            let sent = |items: Seq<ValueView>| convert::to_aws(ValueView::List(items), t, resource_type, attribute);
            &&& sent(Seq::empty()) == Some(JsonView::Array(Seq::empty()))
            &&& sent(Seq::empty().push(v)) == match convert::to_aws(v, inner, resource_type, attribute) {
                Some(j) => Some(JsonView::Array(Seq::empty().push(j))),
                None => Some(JsonView::Array(Seq::empty())),
            }
            &&& sent(a) matches Some(JsonView::Array(x)) && sent(b) matches Some(JsonView::Array(y)) && sent(a + b) == Some(
                JsonView::Array(x + y),
            )
        }),
    decreases b.len(),
{
    let one = Seq::<ValueView>::empty().push(v);
    assert(one.drop_last() =~= Seq::<ValueView>::empty());
    if b.len() > 0 {
        law_lists_are_sent(a, b.drop_last(), v, inner, ordered, resource_type, attribute);
        assert((a + b).drop_last() =~= a + b.drop_last());
        assert((a + b).last() == b.last());
        let x = convert::items_to_aws(a, inner, resource_type, attribute);
        let y = convert::items_to_aws(b.drop_last(), inner, resource_type, attribute);
        if let Some(j) = convert::to_aws(b.last(), inner, resource_type, attribute) {
            assert((x + y).push(j) =~= x + y.push(j));
        }
    } else {
        let x = convert::items_to_aws(a, inner, resource_type, attribute);
        assert(a + b =~= a);
        assert(x + convert::items_to_aws(b, inner, resource_type, attribute) =~= x);
    }
}

/// Lists are read item by item, in order, as they are sent.
pub proof fn law_lists_are_read(
    name: Seq<char>,
    a: Seq<JsonView>,
    b: Seq<JsonView>,
    j: JsonView,
    inner: TypeView,
    ordered: bool,
    resource_type: Seq<char>,
)
    ensures
        ({
            let t = TypeView::List { inner: Box::new(inner), ordered };
            let read = |items: Seq<JsonView>| convert::to_dsl(name, JsonView::Array(items), t, resource_type);
            &&& read(Seq::empty()) == Some(ValueView::List(Seq::empty()))
            &&& read(Seq::empty().push(j)) == match convert::to_dsl(name, j, inner, resource_type) {
                Some(v) => Some(ValueView::List(Seq::empty().push(v))),
                None => Some(ValueView::List(Seq::empty())),
            }
            &&& read(a) matches Some(ValueView::List(x)) && read(b) matches Some(ValueView::List(y)) && read(a + b) == Some(
                ValueView::List(x + y),
            )
        }),
    decreases b.len(),
{
    let one = Seq::<JsonView>::empty().push(j);
    assert(one.drop_last() =~= Seq::<JsonView>::empty());
    if b.len() > 0 {
        law_lists_are_read(name, a, b.drop_last(), j, inner, ordered, resource_type);
        assert((a + b).drop_last() =~= a + b.drop_last());
        assert((a + b).last() == b.last());
        let x = convert::items_to_dsl(name, a, inner, resource_type);
        let y = convert::items_to_dsl(name, b.drop_last(), inner, resource_type);
        if let Some(v) = convert::to_dsl(name, b.last(), inner, resource_type) {
            assert((x + y).push(v) =~= x + y.push(v));
        }
    } else {
        let x = convert::items_to_dsl(name, a, inner, resource_type);
        assert(a + b =~= a);
        assert(x + convert::items_to_dsl(name, b, inner, resource_type) =~= x);
    }
}

/// Maps are sent entry by entry, in order, under the keys that they have.
pub proof fn law_maps_are_sent(
    a: Seq<(Seq<char>, ValueView)>,
    b: Seq<(Seq<char>, ValueView)>,
    key: Seq<char>,
    v: ValueView,
    inner: TypeView,
    resource_type: Seq<char>,
    attribute: Seq<char>,
)
    ensures
        ({
            let t = TypeView::Mapping(Box::new(inner));
            let sent = |m: Seq<(Seq<char>, ValueView)>| convert::to_aws(ValueView::Mapping(m), t, resource_type, attribute);
            &&& sent(Seq::empty()) == Some(JsonView::Object(Seq::empty()))
            &&& sent(Seq::empty().push((key, v))) == match convert::to_aws(v, inner, resource_type, attribute) {
                Some(j) => Some(JsonView::Object(Seq::empty().push((key, j)))),
                None => Some(JsonView::Object(Seq::empty())),
            }
            &&& sent(a) matches Some(JsonView::Object(x)) && sent(b) matches Some(JsonView::Object(y)) && sent(a + b)
                == Some(JsonView::Object(x + y))
        }),
    decreases b.len(),
{
    let one = Seq::<(Seq<char>, ValueView)>::empty().push((key, v));
    assert(one.drop_last() =~= Seq::<(Seq<char>, ValueView)>::empty());
    if b.len() > 0 {
        law_maps_are_sent(a, b.drop_last(), key, v, inner, resource_type, attribute);
        assert((a + b).drop_last() =~= a + b.drop_last());
        assert((a + b).last() == b.last());
        let x = convert::entries_to_aws(a, inner, resource_type, attribute);
        let y = convert::entries_to_aws(b.drop_last(), inner, resource_type, attribute);
        if let Some(j) = convert::to_aws(b.last().1, inner, resource_type, attribute) {
            assert((x + y).push((b.last().0, j)) =~= x + y.push((b.last().0, j)));
        }
    } else {
        let x = convert::entries_to_aws(a, inner, resource_type, attribute);
        assert(a + b =~= a);
        assert(x + convert::entries_to_aws(b, inner, resource_type, attribute) =~= x);
    }
}

/// Maps are read entry by entry, in order, under the keys that they have.
pub proof fn law_maps_are_read(
    name: Seq<char>,
    a: Seq<(Seq<char>, JsonView)>,
    b: Seq<(Seq<char>, JsonView)>,
    key: Seq<char>,
    j: JsonView,
    inner: TypeView,
    resource_type: Seq<char>,
)
    ensures
        ({
            let t = TypeView::Mapping(Box::new(inner));
            let read = |m: Seq<(Seq<char>, JsonView)>| convert::to_dsl(name, JsonView::Object(m), t, resource_type);
            &&& read(Seq::empty()) == Some(ValueView::Mapping(Seq::empty()))
            &&& read(Seq::empty().push((key, j))) == match convert::to_dsl(name, j, inner, resource_type) {
                Some(v) => Some(ValueView::Mapping(Seq::empty().push((key, v)))),
                None => Some(ValueView::Mapping(Seq::empty())),
            }
            &&& read(a) matches Some(ValueView::Mapping(x)) && read(b) matches Some(ValueView::Mapping(y)) && read(a + b)
                == Some(ValueView::Mapping(x + y))
        }),
    decreases b.len(),
{
    let one = Seq::<(Seq<char>, JsonView)>::empty().push((key, j));
    assert(one.drop_last() =~= Seq::<(Seq<char>, JsonView)>::empty());
    if b.len() > 0 {
        law_maps_are_read(name, a, b.drop_last(), key, j, inner, resource_type);
        assert((a + b).drop_last() =~= a + b.drop_last());
        assert((a + b).last() == b.last());
        let x = convert::members_to_dsl(name, a, inner, resource_type);
        let y = convert::members_to_dsl(name, b.drop_last(), inner, resource_type);
        if let Some(v) = convert::to_dsl(name, b.last().1, inner, resource_type) {
            assert((x + y).push((b.last().0, v)) =~= x + y.push((b.last().0, v)));
        }
    } else {
        let x = convert::members_to_dsl(name, a, inner, resource_type);
        assert(a + b =~= a);
        assert(x + convert::members_to_dsl(name, b, inner, resource_type) =~= x);
    }
}

/// The key of a field at the provider: its name there, and else its own.
pub open spec fn key_of(f: FieldView) -> Seq<char> {
    if f.provider_name is Some {
        f.provider_name->0
    } else {
        f.name
    }
}

/// No two fields have the same name, and no two the same key at the provider.
pub open spec fn are_apart(fields: Seq<FieldView>) -> bool {
    forall|i: int, j: int|
        0 <= i < j < fields.len() ==> (#[trigger] fields[i]).name != (#[trigger] fields[j]).name && key_of(fields[i])
            != key_of(fields[j])
}

/// A struct is sent field by field: under the key of each field stands what its
/// value is sent as, and no other key is there. A block, which is a list of one
/// map, is sent as the map.
pub proof fn law_structs_are_sent(
    entries: Seq<(Seq<char>, ValueView)>,
    struct_name: Seq<char>,
    fields: Seq<FieldView>,
    resource_type: Seq<char>,
    attribute: Seq<char>,
    i: int,
)
    requires
        are_apart(fields),
        0 <= i < fields.len(),
    ensures
        ({
            let t = TypeView::Struct { name: struct_name, fields };
            let sent = convert::to_aws(ValueView::Mapping(entries), t, resource_type, attribute);
            let f = fields[i];
            &&& sent matches Some(JsonView::Object(m)) && keyed::distinct_keys(m) && keyed::lookup(m, key_of(f))
                == match keyed::lookup(entries, f.name) {
                Some(v) => convert::to_aws(v, f.field_type, resource_type, f.name),
                None => None,
            } && forall|k: Seq<char>| #[trigger]
                keyed::lookup(m, k) is Some ==> exists|n: int| 0 <= n < fields.len() && key_of(#[trigger] fields[n]) == k
            &&& convert::to_aws(
                ValueView::List(Seq::empty().push(ValueView::Mapping(entries))),
                t,
                resource_type,
                attribute,
            ) == sent
        }),
{
    assert forall|a: int, b: int| 0 <= a < fields.len() && 0 <= b < fields.len() && a != b implies {
        &&& (#[trigger] fields[a]).name != (#[trigger] fields[b]).name
        &&& convert::provider_key(fields[a]) != convert::provider_key(fields[b])
    } by {
        let (low, high) = if a < b { (a, b) } else { (b, a) };
        assert(fields[low].name != fields[high].name && key_of(fields[low]) != key_of(fields[high]));
    }
    round_trip::lemma_field_json(entries, fields, resource_type);
    let m = convert::fields_to_aws(entries, fields, resource_type);
    assert(convert::provider_key(fields[i]) == key_of(fields[i]));
    assert forall|k: Seq<char>| #[trigger] keyed::lookup(m, k) is Some implies exists|n: int|
        0 <= n < fields.len() && key_of(#[trigger] fields[n]) == k by {
        let n = choose|n: int| 0 <= n < fields.len() && convert::provider_key(#[trigger] fields[n]) == k;
        assert(key_of(fields[n]) == k);
    }
}

/// A struct is read field by field: under the name of each field stands what its
/// member is read as, and no other name is there. What holds no field at all is
/// read without regard to the type.
pub proof fn law_structs_are_read(
    name: Seq<char>,
    members: Seq<(Seq<char>, JsonView)>,
    struct_name: Seq<char>,
    fields: Seq<FieldView>,
    resource_type: Seq<char>,
    i: int,
)
    requires
        are_apart(fields),
        0 <= i < fields.len(),
        ({
            let f = fields[i];
            keyed::lookup(members, key_of(f)) matches Some(j) && convert::to_dsl(f.name, j, f.field_type, resource_type)
                is Some
        }),
    ensures
        ({
            let t = TypeView::Struct { name: struct_name, fields };
            &&& convert::to_dsl(name, JsonView::Object(members), t, resource_type) matches Some(ValueView::Mapping(m))
            &&& forall|n: int|
                0 <= n < fields.len() ==> keyed::lookup(m, (#[trigger] fields[n]).name) == match keyed::lookup(
                    members,
                    key_of(fields[n]),
                ) {
                    Some(j) => convert::to_dsl(fields[n].name, j, fields[n].field_type, resource_type),
                    None => None,
                }
            &&& forall|k: Seq<char>| #[trigger]
                keyed::lookup(m, k) is Some ==> exists|n: int| 0 <= n < fields.len() && (#[trigger] fields[n]).name == k
        }),
{
    assert forall|a: int, b: int| 0 <= a < fields.len() && 0 <= b < fields.len() && a != b implies {
        &&& (#[trigger] fields[a]).name != (#[trigger] fields[b]).name
        &&& convert::provider_key(fields[a]) != convert::provider_key(fields[b])
    } by {
        let (low, high) = if a < b { (a, b) } else { (b, a) };
        assert(fields[low].name != fields[high].name && key_of(fields[low]) != key_of(fields[high]));
    }
    round_trip::lemma_field_values(members, fields, resource_type);
    let m = convert::fields_to_dsl(members, fields, resource_type);
    assert(keyed::lookup(m, fields[i].name) is Some);
    keyed::lemma_index_from(m, fields[i].name, 0);
    assert(m.len() > 0);
}

/// A value of a union is sent as one of its first type that has JSON for it, and
/// without regard to the types where none has.
pub proof fn law_unions_are_sent(v: ValueView, members: Seq<TypeView>, i: int, resource_type: Seq<char>, attribute: Seq<char>)
    requires
        0 <= i <= members.len(),
        forall|k: int| 0 <= k < i ==> convert::to_aws(v, #[trigger] members[k], resource_type, attribute) is None,
        i < members.len() ==> convert::to_aws(v, members[i], resource_type, attribute) is Some,
    ensures
        convert::to_aws(v, TypeView::Union(members), resource_type, attribute) == if i < members.len() {
            convert::to_aws(v, members[i], resource_type, attribute)
        } else {
            convert::to_aws(v, TypeView::String, resource_type, attribute)
        },
{
    lemma_first_member_sent(v, members, 0, i, resource_type, attribute);
}

proof fn lemma_first_member_sent(
    v: ValueView,
    members: Seq<TypeView>,
    from: int,
    i: int,
    resource_type: Seq<char>,
    attribute: Seq<char>,
)
    requires
        0 <= from <= i <= members.len(),
        forall|k: int| 0 <= k < i ==> convert::to_aws(v, #[trigger] members[k], resource_type, attribute) is None,
        i < members.len() ==> convert::to_aws(v, members[i], resource_type, attribute) is Some,
    ensures
        convert::member_to_aws(v, members, from, resource_type, attribute) == if i < members.len() {
            convert::to_aws(v, members[i], resource_type, attribute)
        } else {
            None
        },
    decreases i - from,
{
    if from < i {
        lemma_first_member_sent(v, members, from + 1, i, resource_type, attribute);
    }
}

/// A document of a union is read as one of its first type that has a value for
/// it, and without regard to the types where none has.
pub proof fn law_unions_are_read(name: Seq<char>, j: JsonView, members: Seq<TypeView>, i: int, resource_type: Seq<char>)
    requires
        0 <= i <= members.len(),
        forall|k: int| 0 <= k < i ==> convert::to_dsl(name, j, #[trigger] members[k], resource_type) is None,
        i < members.len() ==> convert::to_dsl(name, j, members[i], resource_type) is Some,
    ensures
        convert::to_dsl(name, j, TypeView::Union(members), resource_type) == if i < members.len() {
            convert::to_dsl(name, j, members[i], resource_type)
        } else {
            convert::to_dsl(name, j, TypeView::String, resource_type)
        },
{
    lemma_first_member_read(name, j, members, 0, i, resource_type);
}

proof fn lemma_first_member_read(
    name: Seq<char>,
    j: JsonView,
    members: Seq<TypeView>,
    from: int,
    i: int,
    resource_type: Seq<char>,
)
    requires
        0 <= from <= i <= members.len(),
        forall|k: int| 0 <= k < i ==> convert::to_dsl(name, j, #[trigger] members[k], resource_type) is None,
        i < members.len() ==> convert::to_dsl(name, j, members[i], resource_type) is Some,
    ensures
        convert::member_to_dsl(name, j, members, from, resource_type) == if i < members.len() {
            convert::to_dsl(name, j, members[i], resource_type)
        } else {
            None
        },
    decreases i - from,
{
    if from < i {
        lemma_first_member_read(name, j, members, from + 1, i, resource_type);
    }
}

/// Without regard to a type, lists and maps are sent item by item and entry by
/// entry; what has no JSON is left out.
pub proof fn law_plain_values_are_sent(
    a: Seq<ValueView>,
    v: ValueView,
    m: Seq<(Seq<char>, ValueView)>,
    key: Seq<char>,
)
    ensures
        convert::plain_json(ValueView::List(Seq::empty())) == Some(JsonView::Array(Seq::empty())),
        convert::plain_json(ValueView::Mapping(Seq::empty())) == Some(JsonView::Object(Seq::empty())),
        convert::plain_json(ValueView::List(a)) matches Some(JsonView::Array(x)) && convert::plain_json(
            ValueView::List(a.push(v)),
        ) == Some(
            JsonView::Array(
                match convert::plain_json(v) {
                    Some(j) => x.push(j),
                    None => x,
                },
            ),
        ),
        convert::plain_json(ValueView::Mapping(m)) matches Some(JsonView::Object(y)) && convert::plain_json(
            ValueView::Mapping(m.push((key, v))),
        ) == Some(
            JsonView::Object(
                match convert::plain_json(v) {
                    Some(j) => y.push((key, j)),
                    None => y,
                },
            ),
        ),
{
    assert(a.push(v).subrange(0, a.len() as int) =~= a);
    assert(m.push((key, v)).subrange(0, m.len() as int) =~= m);
}

/// Without regard to a type, lists and objects are read item by item and member
/// by member; what has no value is left out.
pub proof fn law_plain_documents_are_read(
    a: Seq<JsonView>,
    j: JsonView,
    m: Seq<(Seq<char>, JsonView)>,
    key: Seq<char>,
)
    ensures
        convert::plain_value(JsonView::Array(Seq::empty())) == Some(ValueView::List(Seq::empty())),
        convert::plain_value(JsonView::Object(Seq::empty())) == Some(ValueView::Mapping(Seq::empty())),
        convert::plain_value(JsonView::Array(a)) matches Some(ValueView::List(x)) && convert::plain_value(
            JsonView::Array(a.push(j)),
        ) == Some(
            ValueView::List(
                match convert::plain_value(j) {
                    Some(v) => x.push(v),
                    None => x,
                },
            ),
        ),
        convert::plain_value(JsonView::Object(m)) matches Some(ValueView::Mapping(y)) && convert::plain_value(
            JsonView::Object(m.push((key, j))),
        ) == Some(
            ValueView::Mapping(
                match convert::plain_value(j) {
                    Some(v) => y.push((key, v)),
                    None => y,
                },
            ),
        ),
{
    assert(a.push(j).subrange(0, a.len() as int) =~= a);
    assert(m.push((key, j)).subrange(0, m.len() as int) =~= m);
}

/// Without regard to a type, what the provider returns is read as it is. A whole
/// number that is too large for one becomes the nearest number with a fraction.
pub proof fn law_plain_scalars_are_read(s: Seq<char>, b: bool, n: u64, i: i64, f: Float)
    ensures
        convert::plain_value(JsonView::Null) is None,
        convert::plain_value(JsonView::String(s)) == Some(ValueView::String(s)),
        convert::plain_value(JsonView::Bool(b)) == Some(ValueView::Bool(b)),
        convert::plain_value(JsonView::Number(JsonNumber::NegInt(i))) == Some(ValueView::Int(i)),
        convert::plain_value(JsonView::Number(JsonNumber::Float(f))) == Some(ValueView::Float(f)),
        n <= i64::MAX ==> convert::plain_value(JsonView::Number(JsonNumber::PosInt(n))) == Some(ValueView::Int(n as i64)),
        n > i64::MAX ==> convert::plain_value(JsonView::Number(JsonNumber::PosInt(n))) == Some(
            ValueView::Float(value::nearest_float(n)),
        ),
{
}

/// A value that has not the form of its type is sent as it is without one: what is
/// no list for a list, what is no map for a map, and for a struct what is neither a
/// map nor a block of one. An enum with a namespace so takes what is no name.
pub proof fn law_values_of_another_form_are_sent_plainly(
    v: ValueView,
    t: TypeView,
    resource_type: Seq<char>,
    attribute: Seq<char>,
)
    ensures
        ({
            let sent = convert::to_aws(v, t, resource_type, attribute);
            let plain = convert::plain_json(v);
            &&& t is List && !(v is List) ==> sent == plain
            &&& t is Mapping && !(v is Mapping) ==> sent == plain
            &&& t is Struct && !(v is List) && !(v is Mapping) ==> sent == plain
            &&& t is Struct && (v matches ValueView::List(items) && items.len() != 1) ==> sent == plain
            &&& t is Struct && (v matches ValueView::List(items) && items.len() == 1 && !(items[0] is Mapping))
                ==> sent == plain
            &&& schema::namespaced(t) is Some && !(v is String) && !(v is UnresolvedIdent) ==> sent == plain
            &&& t is String || t is Int || t is Float || t is Bool || t is Enum ==> sent == plain
        }),
{
}

/// What is returned in another form than that of its type is read as it is without
/// one.
pub proof fn law_documents_of_another_form_are_read_plainly(
    name: Seq<char>,
    j: JsonView,
    t: TypeView,
    resource_type: Seq<char>,
)
    ensures
        ({
            let read = convert::to_dsl(name, j, t, resource_type);
            let plain = convert::plain_value(j);
            &&& t is List && !(j is Array) ==> read == plain
            &&& t is Mapping && !(j is Object) ==> read == plain
            &&& t is Struct && !(j is Object) ==> read == plain
            &&& schema::namespaced(t) is Some && !(j is String) ==> read == plain
            &&& t is String || t is Int || t is Float || t is Bool || t is Enum ==> read == plain
        }),
{
}

/// However the provider spells a value that the type of an enum lists, it is read as
/// that value; one that stands for none of them is taken as it is.
pub proof fn law_spelling_of_the_provider_does_not_matter(
    name: Seq<char>,
    s: Seq<char>,
    t: TypeView,
    resource_type: Seq<char>,
    values: Seq<Seq<char>>,
    i: int,
)
    requires
        schema::namespaced(t) is Some,
        schema::enum_values(t) == Some(values),
    ensures
        ({
            let (enum_name, namespace, form) = schema::namespaced(t)->0;
            let read = convert::to_dsl(name, JsonView::String(s), t, resource_type);
            &&& 0 <= i < values.len() && enums::stands_for(s, values[i]) && (forall|j: int|
                0 <= j < values.len() && enums::stands_for(s, #[trigger] values[j]) ==> values[j] == values[i]) ==> read
                == Some(ValueView::String(namespace + "."@ + enum_name + "."@ + schema::spelled(form, values[i])))
            &&& (forall|j: int| 0 <= j < values.len() ==> !enums::stands_for(s, #[trigger] values[j])) ==> read == Some(
                ValueView::String(namespace + "."@ + enum_name + "."@ + schema::spelled(form, s)),
            )
        }),
{
    if 0 <= i < values.len() && enums::stands_for(s, values[i]) && forall|j: int|
        0 <= j < values.len() && enums::stands_for(s, #[trigger] values[j]) ==> values[j] == values[i] {
        enum_laws::law_forms_of_a_value_are_found(s, values, i);
    }
    enum_laws::law_values_are_found_by_their_spelling(s, values);
}

/// An enum that is checked rather than listed in its type is read by the values that
/// the resource type has for the attribute: however the provider spells one of them,
/// it is read as that value, behind the namespace and the name. Where the resource
/// type has none, what the provider returns is taken as it is.
pub proof fn law_checked_value_is_read(
    name: Seq<char>,
    s: Seq<char>,
    t: TypeView,
    resource_type: Seq<char>,
    values: Seq<Seq<char>>,
    i: int,
)
    requires
        schema::namespaced(t) is Some,
        schema::enum_values(t) is None,
    ensures
        ({
            let (enum_name, namespace, form) = schema::namespaced(t)->0;
            let read = convert::to_dsl(name, JsonView::String(s), t, resource_type);
            &&& registry::valid_values(resource_type, name) is None ==> read == Some(
                ValueView::String(namespace + "."@ + enum_name + "."@ + schema::spelled(form, s)),
            )
            &&& registry::valid_values(resource_type, name) == Some(values) && 0 <= i < values.len() && enums::stands_for(
                s,
                values[i],
            ) && (forall|j: int|
                0 <= j < values.len() && enums::stands_for(s, #[trigger] values[j]) ==> values[j] == values[i]) ==> read
                == Some(ValueView::String(namespace + "."@ + enum_name + "."@ + schema::spelled(form, values[i])))
        }),
{
    if 0 <= i < values.len() && enums::stands_for(s, values[i]) && forall|j: int|
        0 <= j < values.len() && enums::stands_for(s, #[trigger] values[j]) ==> values[j] == values[i] {
        enum_laws::law_forms_of_a_value_are_found(s, values, i);
    }
}

} // verus!
