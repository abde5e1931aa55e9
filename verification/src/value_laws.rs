//! When two values are equal.
use vstd::prelude::*;

use crate::keyed;
use crate::value;
use crate::value::{Float, ValueView};

verus! {

/// Two values of different kinds are never equal. Texts, integers, truth values,
/// identifiers and references are equal exactly when they are the same.
pub proof fn law_plain_values_are_equal_when_they_are_the_same(a: ValueView, b: ValueView)
    ensures
        !(a is List || a is Mapping || a is Float) ==> (value::same_value(a, b) <==> a == b),
        (a is List) != (b is List) ==> !value::same_value(a, b),
        (a is Mapping) != (b is Mapping) ==> !value::same_value(a, b),
        (a is Float) != (b is Float) ==> !value::same_value(a, b),
{
}

/// Lists are equal exactly when they are as long and their items are equal one by
/// one, so that their order matters.
pub proof fn law_lists_are_equal_item_by_item(x: Seq<ValueView>, y: Seq<ValueView>)
    ensures
        value::same_value(ValueView::List(x), ValueView::List(y)) <==> x.len() == y.len() && forall|i: int|
            0 <= i < x.len() ==> value::same_value(#[trigger] x[i], y[i]),
{
    lemma_items(x, y);
}

proof fn lemma_items(x: Seq<ValueView>, y: Seq<ValueView>)
    ensures
        value::same_items(x, y) <==> forall|i: int| 0 <= i < x.len() ==> value::same_value(#[trigger] x[i], y[i]),
    decreases x.len(),
{
    if x.len() > 0 {
        let before = x.subrange(0, x.len() - 1);
        lemma_items(before, y);
        assert forall|i: int| 0 <= i < before.len() implies #[trigger] before[i] == x[i] by {}
        if forall|i: int| 0 <= i < x.len() ==> value::same_value(#[trigger] x[i], y[i]) {
            assert forall|i: int| 0 <= i < before.len() implies value::same_value(#[trigger] before[i], y[i]) by {
                assert(before[i] == x[i]);
            }
        }
        if value::same_items(x, y) {
            assert forall|i: int| 0 <= i < x.len() implies value::same_value(#[trigger] x[i], y[i]) by {
                if i < before.len() {
                    assert(before[i] == x[i]);
                }
            }
        }
    }
}

/// Maps are equal exactly when they have as many entries and each key of the one
/// has an equal value in the other, so that their order does not matter.
pub proof fn law_maps_are_equal_key_by_key(x: Seq<(Seq<char>, ValueView)>, y: Seq<(Seq<char>, ValueView)>)
    ensures
        value::same_value(ValueView::Mapping(x), ValueView::Mapping(y)) <==> x.len() == y.len() && forall|i: int|
            0 <= i < x.len() ==> (keyed::lookup(y, (#[trigger] x[i]).0) matches Some(v) && value::same_value(x[i].1, v)),
{
    lemma_entries(x, y);
}

proof fn lemma_entries(x: Seq<(Seq<char>, ValueView)>, y: Seq<(Seq<char>, ValueView)>)
    ensures
        value::found_in(x, y) <==> forall|i: int|
            0 <= i < x.len() ==> (keyed::lookup(y, (#[trigger] x[i]).0) matches Some(v) && value::same_value(x[i].1, v)),
    decreases x.len(),
{
    if x.len() > 0 {
        let before = x.subrange(0, x.len() - 1);
        lemma_entries(before, y);
        assert forall|i: int| 0 <= i < before.len() implies #[trigger] before[i] == x[i] by {}
        if forall|i: int|
            0 <= i < x.len() ==> (keyed::lookup(y, (#[trigger] x[i]).0) matches Some(v) && value::same_value(x[i].1, v)) {
            assert forall|i: int| 0 <= i < before.len() implies (keyed::lookup(y, (#[trigger] before[i]).0) matches Some(v)
                && value::same_value(before[i].1, v)) by {
                assert(before[i] == x[i]);
            }
        }
        if value::found_in(x, y) {
            assert forall|i: int| 0 <= i < x.len() implies (keyed::lookup(y, (#[trigger] x[i]).0) matches Some(v)
                && value::same_value(x[i].1, v)) by {
                if i < before.len() {
                    assert(before[i] == x[i]);
                }
            }
        }
    }
}

/// The order of the entries of a map, whose keys differ, does not matter: two maps
/// with the same values under the same keys are equal where those values equal
/// themselves.
pub proof fn law_order_of_entries_does_not_matter(x: Seq<(Seq<char>, ValueView)>, y: Seq<(Seq<char>, ValueView)>)
    requires
        keyed::distinct_keys(x),
        x.len() == y.len(),
        forall|k: Seq<char>| #[trigger] keyed::lookup(x, k) == keyed::lookup(y, k),
        forall|i: int| 0 <= i < x.len() ==> value::same_value((#[trigger] x[i]).1, x[i].1),
    ensures
        value::same_value(ValueView::Mapping(x), ValueView::Mapping(y)),
{
    law_maps_are_equal_key_by_key(x, y);
    assert forall|i: int| 0 <= i < x.len() implies (keyed::lookup(y, (#[trigger] x[i]).0) matches Some(v)
        && value::same_value(x[i].1, v)) by {
        keyed::lemma_index_from(x, x[i].0, 0);
        assert(keyed::lookup(x, x[i].0) == keyed::lookup(y, x[i].0));
    }
}

/// Numbers with a fraction are equal where their bits are, save that what is no
/// number equals nothing, and that the two zeros are equal.
pub proof fn law_floats_are_equal_as_numbers(a: Float, b: Float)
    ensures
        value::float_finite(a) ==> value::same_float(a, a),
        value::float_nan(a) ==> !value::same_float(a, b) && !value::same_float(b, a),
        value::same_float(a, b) == value::same_float(b, a),
        value::same_float(Float { bits: 0 }, Float { bits: 0x8000_0000_0000_0000 }),
        value::float_finite(a) && a.bits != b.bits && a.bits % 0x8000_0000_0000_0000 != 0 ==> !value::same_float(a, b),
        value::same_value(ValueView::Float(a), ValueView::Float(b)) == value::same_float(a, b),
{
}

/// The number with a fraction that stands for a large whole number is the nearest
/// one that there is, and of two that are as near the one whose last bit is zero.
pub proof fn law_large_numbers_are_rounded_to_nearest(n: u64)
    requires
        n >= 0x8000_0000_0000_0000,
    ensures
        ({
            let m = value::leading_bits(n);
            &&& -1024 <= m * 2048 - n <= 1024
            &&& m * 2048 - n == 1024 || m * 2048 - n == -1024 ==> m % 2 == 0
            &&& 0x10_0000_0000_0000 <= m <= 0x20_0000_0000_0000
            &&& value::float_finite(value::nearest_float(n))
            &&& m < 0x20_0000_0000_0000 ==> value::float_exponent(value::nearest_float(n)) == 1086
                && value::nearest_float(n).bits as int % 0x10_0000_0000_0000 == m - 0x10_0000_0000_0000
            &&& m == 0x20_0000_0000_0000 ==> value::float_exponent(value::nearest_float(n)) == 1087
                && value::nearest_float(n).bits as int % 0x10_0000_0000_0000 == 0
        }),
{
}

} // verus!
