//! Values of the configuration language, and the resources that hold them.
use vstd::prelude::*;
use vstd::string::*;

use crate::keyed;
use crate::text;

verus! {

/// A double precision number, by the bits of its IEEE 754 representation.
#[derive(Debug, Clone, Copy, PartialEq, Eq, Structural)]
pub struct Float {
    pub bits: u64,
}

/// The biased exponent: bits 52 to 62.
pub open spec fn float_exponent(f: Float) -> int {
    (f.bits as int / 0x10_0000_0000_0000) % 2048
}

/// Neither infinite nor a NaN.
pub open spec fn float_finite(f: Float) -> bool {
    float_exponent(f) != 2047
}

pub open spec fn float_nan(f: Float) -> bool {
    float_exponent(f) == 2047 && f.bits as int % 0x10_0000_0000_0000 != 0
}

pub open spec fn float_zero(f: Float) -> bool {
    f.bits == 0 || f.bits == 0x8000_0000_0000_0000
}

/// Numeric equality: a NaN equals nothing, and the two zeros are equal.
pub open spec fn same_float(a: Float, b: Float) -> bool {
    !float_nan(a) && !float_nan(b) && (a.bits == b.bits || (float_zero(a) && float_zero(b)))
}

/// The 53 leading bits of a number of 64 bits, rounded to nearest, ties to even.
pub open spec fn leading_bits(n: u64) -> int {
    let q = n as int / 2048;
    let r = n as int % 2048;
    if r > 1024 || (r == 1024 && q % 2 == 1) {
        q + 1
    } else {
        q
    }
}

/// The double nearest to a number of at least `2^63`: the exponent is that of
/// `2^63`, or one more where rounding carries into it.
pub open spec fn nearest_float(n: u64) -> Float {
    Float { bits: (1085 * 0x10_0000_0000_0000 + leading_bits(n)) as u64 }
}

impl Float {
    pub fn is_finite(&self) -> (r: bool)
        ensures
            r == float_finite(*self),
    {
        (self.bits / 0x10_0000_0000_0000) % 2048 != 2047
    }

    fn is_nan(&self) -> (r: bool)
        ensures
            r == float_nan(*self),
    {
        (self.bits / 0x10_0000_0000_0000) % 2048 == 2047 && self.bits % 0x10_0000_0000_0000 != 0
    }

    /// Whether two numbers are equal as numbers.
    pub fn equals(&self, other: &Float) -> (r: bool)
        ensures
            r == same_float(*self, *other),
    {
        let zeros = (self.bits == 0 || self.bits == 0x8000_0000_0000_0000)
            && (other.bits == 0 || other.bits == 0x8000_0000_0000_0000);
        !self.is_nan() && !other.is_nan() && (self.bits == other.bits || zeros)
    }

    /// The double nearest to a number that a signed integer cannot hold.
    pub fn nearest(n: u64) -> (r: Float)
        requires
            n >= 0x8000_0000_0000_0000,
        ensures
            r == nearest_float(n),
    {
        let q: u64 = n / 2048;
        let rest: u64 = n % 2048;
        let lead: u64 = if rest > 1024 || (rest == 1024 && q % 2 == 1) {
            q + 1
        } else {
            q
        };
        Float { bits: 1085 * 0x10_0000_0000_0000 + lead }
    }
}

/// A value of the configuration language. A map holds no key twice.
#[derive(Debug, PartialEq)]
pub enum DslValue {
    String(String),
    Int(i64),
    Float(Float),
    Bool(bool),
    List(Vec<DslValue>),
    Mapping(Vec<(String, DslValue)>),
    /// An identifier that is not resolved yet, with the member that it selects.
    UnresolvedIdent(String, Option<String>),
    /// A reference to an attribute of another resource.
    ResourceRef(String, String),
}

/// A value with sequences in the place of strings and vectors.
pub enum ValueView {
    String(Seq<char>),
    Int(i64),
    Float(Float),
    Bool(bool),
    List(Seq<ValueView>),
    Mapping(Seq<(Seq<char>, ValueView)>),
    UnresolvedIdent(Seq<char>, Option<Seq<char>>),
    ResourceRef(Seq<char>, Seq<char>),
}

pub open spec fn value_view(v: DslValue) -> ValueView
    decreases v,
{
    match v {
        DslValue::String(s) => ValueView::String(s@),
        DslValue::Int(i) => ValueView::Int(i),
        DslValue::Float(f) => ValueView::Float(f),
        DslValue::Bool(b) => ValueView::Bool(b),
        DslValue::List(items) => ValueView::List(values_view(items@)),
        DslValue::Mapping(entries) => ValueView::Mapping(entries_view(entries@)),
        DslValue::UnresolvedIdent(ident, member) => ValueView::UnresolvedIdent(ident@, text::opt_string(member)),
        DslValue::ResourceRef(binding, attribute) => ValueView::ResourceRef(binding@, attribute@),
    }
}

pub open spec fn values_view(s: Seq<DslValue>) -> Seq<ValueView>
    decreases s,
{
    if s.len() == 0 {
        Seq::empty()
    } else {
        values_view(s.subrange(0, s.len() - 1)).push(value_view(s[s.len() - 1]))
    }
}

pub open spec fn entries_view(s: Seq<(String, DslValue)>) -> Seq<(Seq<char>, ValueView)>
    decreases s,
{
    if s.len() == 0 {
        Seq::empty()
    } else {
        let last = s[s.len() - 1];
        entries_view(s.subrange(0, s.len() - 1)).push((last.0@, value_view(last.1)))
    }
}

impl View for DslValue {
    type V = ValueView;

    open spec fn view(&self) -> ValueView {
        value_view(*self)
    }
}

/// The view of an optional value.
pub open spec fn opt_value(o: Option<DslValue>) -> Option<ValueView> {
    match o {
        Some(v) => Some(v@),
        None => None,
    }
}

pub proof fn lemma_values(s: Seq<DslValue>)
    ensures
        values_view(s).len() == s.len(),
        forall|i: int| 0 <= i < s.len() ==> #[trigger] values_view(s)[i] == value_view(s[i]),
    decreases s.len(),
{
    if s.len() > 0 {
        lemma_values(s.subrange(0, s.len() - 1));
    }
}

pub proof fn lemma_entries(s: Seq<(String, DslValue)>)
    ensures
        entries_view(s).len() == s.len(),
        forall|i: int| 0 <= i < s.len() ==> #[trigger] entries_view(s)[i] == (s[i].0@, value_view(s[i].1)),
    decreases s.len(),
{
    if s.len() > 0 {
        lemma_entries(s.subrange(0, s.len() - 1));
    }
}

pub proof fn lemma_push_value(s: Seq<DslValue>, v: DslValue)
    ensures
        values_view(s.push(v)) == values_view(s).push(value_view(v)),
{
    assert(s.push(v).subrange(0, s.len() as int) =~= s);
}

pub proof fn lemma_push_entry(s: Seq<(String, DslValue)>, e: (String, DslValue))
    ensures
        entries_view(s.push(e)) == entries_view(s).push((e.0@, value_view(e.1))),
{
    assert(s.push(e).subrange(0, s.len() as int) =~= s);
}

/// The view of a prefix grows by one element.
pub proof fn lemma_next_value(s: Seq<DslValue>, i: int)
    requires
        0 <= i < s.len(),
    ensures
        values_view(s.take(i + 1)) == values_view(s.take(i)).push(value_view(s[i])),
{
    assert(s.take(i + 1) =~= s.take(i).push(s[i]));
    lemma_push_value(s.take(i), s[i]);
}

/// The view of a prefix grows by one entry.
pub proof fn lemma_next_entry(s: Seq<(String, DslValue)>, i: int)
    requires
        0 <= i < s.len(),
    ensures
        entries_view(s.take(i + 1)) == entries_view(s.take(i)).push((s[i].0@, value_view(s[i].1))),
{
    assert(s.take(i + 1) =~= s.take(i).push(s[i]));
    lemma_push_entry(s.take(i), s[i]);
}

/// A copy of a list of values.
pub fn copy_values(items: &Vec<DslValue>) -> (r: Vec<DslValue>)
    ensures
        values_view(r@) == values_view(items@),
    decreases items@,
{
    let mut out: Vec<DslValue> = Vec::new();
    let mut i: usize = 0;
    assert(out@ =~= items@.take(0));
    while i < items.len()
        invariant
            i <= items.len(),
            values_view(out@) == values_view(items@.take(i as int)),
        decreases items.len() - i,
    {
        let v = copy_value(&items[i]);
        proof {
            lemma_push_value(out@, v);
            lemma_next_value(items@, i as int);
        }
        out.push(v);
        i = i + 1;
    }
    assert(items@.take(i as int) =~= items@);
    out
}

/// A copy of a list of entries.
pub fn copy_entries(entries: &Vec<(String, DslValue)>) -> (r: Vec<(String, DslValue)>)
    ensures
        entries_view(r@) == entries_view(entries@),
    decreases entries@,
{
    let mut out: Vec<(String, DslValue)> = Vec::new();
    let mut i: usize = 0;
    assert(out@ =~= entries@.take(0));
    while i < entries.len()
        invariant
            i <= entries.len(),
            entries_view(out@) == entries_view(entries@.take(i as int)),
        decreases entries.len() - i,
    {
        let e = (entries[i].0.clone(), copy_value(&entries[i].1));
        proof {
            lemma_push_entry(out@, e);
            lemma_next_entry(entries@, i as int);
        }
        out.push(e);
        i = i + 1;
    }
    assert(entries@.take(i as int) =~= entries@);
    out
}

/// A copy of a value.
pub fn copy_value(v: &DslValue) -> (r: DslValue)
    ensures
        r@ == v@,
    decreases v,
{
    match v {
        DslValue::String(s) => DslValue::String(s.clone()),
        DslValue::Int(i) => DslValue::Int(*i),
        DslValue::Float(f) => DslValue::Float(*f),
        DslValue::Bool(b) => DslValue::Bool(*b),
        DslValue::List(items) => DslValue::List(copy_values(items)),
        DslValue::Mapping(entries) => DslValue::Mapping(copy_entries(entries)),
        DslValue::UnresolvedIdent(ident, member) => DslValue::UnresolvedIdent(
            ident.clone(),
            match member {
                Some(m) => Some(m.clone()),
                None => None,
            },
        ),
        DslValue::ResourceRef(binding, attribute) => DslValue::ResourceRef(binding.clone(), attribute.clone()),
    }
}

impl Clone for DslValue {
    fn clone(&self) -> (r: Self)
        ensures
            r@ == self@,
    {
        copy_value(self)
    }
}

/// Two values are equal: lists item by item, maps key by key in any order,
/// numbers as numbers.
pub open spec fn same_value(a: ValueView, b: ValueView) -> bool
    decreases a,
{
    match (a, b) {
        (ValueView::Float(x), ValueView::Float(y)) => same_float(x, y),
        (ValueView::List(x), ValueView::List(y)) => x.len() == y.len() && same_items(x, y),
        (ValueView::Mapping(x), ValueView::Mapping(y)) => x.len() == y.len() && found_in(x, y),
        (ValueView::List(_), _) => false,
        (ValueView::Mapping(_), _) => false,
        (ValueView::Float(_), _) => false,
        _ => a == b,
    }
}

/// The items of `a` equal those of `b` at the same places.
pub open spec fn same_items(a: Seq<ValueView>, b: Seq<ValueView>) -> bool
    decreases a,
{
    if a.len() == 0 {
        true
    } else {
        same_items(a.subrange(0, a.len() - 1), b) && same_value(a[a.len() - 1], b[a.len() - 1])
    }
}

/// Every entry of `a` has an equal one in `b`.
pub open spec fn found_in(a: Seq<(Seq<char>, ValueView)>, b: Seq<(Seq<char>, ValueView)>) -> bool
    decreases a,
{
    if a.len() == 0 {
        true
    } else {
        let last = a[a.len() - 1];
        found_in(a.subrange(0, a.len() - 1), b) && match keyed::lookup(b, last.0) {
            Some(v) => same_value(last.1, v),
            None => false,
        }
    }
}

/// The value under a key.
pub fn get<'a>(entries: &'a Vec<(String, DslValue)>, key: &str) -> (r: Option<&'a DslValue>)
    ensures
        match r {
            Some(v) => keyed::lookup(entries_view(entries@), key@) == Some(v@),
            None => keyed::lookup(entries_view(entries@), key@) is None,
        },
{
    proof {
        lemma_entries(entries@);
        assert forall|i: int| 0 <= i < entries@.len() implies (#[trigger] entries@[i]).0@ == entries_view(entries@)[i].0 by {};
        keyed::lemma_position(entries@, entries_view(entries@), key@, 0);
    }
    match keyed::position(entries, key) {
        Some(i) => Some(&entries[i].1),
        None => None,
    }
}

/// Whether there is a value under a key.
pub fn has_key(entries: &Vec<(String, DslValue)>, key: &str) -> (r: bool)
    ensures
        r == keyed::lookup(entries_view(entries@), key@) is Some,
{
    get(entries, key).is_some()
}

/// Puts a value under a key, in the place of the one that is there.
pub fn put(entries: &mut Vec<(String, DslValue)>, key: String, v: DslValue)
    ensures
        entries_view(final(entries)@) == keyed::set(entries_view(old(entries)@), key@, v@),
{
    let ghost before = entries@;
    let ghost e = (key, v);
    proof {
        lemma_entries(entries@);
        assert forall|i: int| 0 <= i < entries@.len() implies (#[trigger] entries@[i]).0@ == entries_view(entries@)[i].0 by {};
        keyed::lemma_position(entries@, entries_view(entries@), key@, 0);
    }
    match keyed::position(entries, key.as_str()) {
        Some(i) => {
            entries.set(i, (key, v));
            proof {
                lemma_entries(entries@);
                assert(entries@ =~= before.update(i as int, e));
                assert(entries_view(entries@) =~= entries_view(before).update(i as int, (e.0@, e.1@)));
            }
        },
        None => {
            entries.push((key, v));
            proof {
                lemma_push_entry(before, e);
            }
        },
    }
}

/// Takes away the value under a key, where there is one.
pub fn take_out(entries: &mut Vec<(String, DslValue)>, key: &str)
    ensures
        entries_view(final(entries)@) == keyed::without(entries_view(old(entries)@), key@),
{
    let ghost before = entries@;
    proof {
        lemma_entries(entries@);
        assert forall|i: int| 0 <= i < entries@.len() implies (#[trigger] entries@[i]).0@ == entries_view(entries@)[i].0 by {};
        keyed::lemma_position(entries@, entries_view(entries@), key@, 0);
    }
    if let Some(i) = keyed::position(entries, key) {
        entries.remove(i);
        proof {
            lemma_entries(entries@);
            assert(entries@ =~= before.remove(i as int));
            assert(entries_view(entries@) =~= entries_view(before).remove(i as int));
        }
    }
}

/// Whether two values are equal.
pub fn value_eq(a: &DslValue, b: &DslValue) -> (r: bool)
    ensures
        r == same_value(a@, b@),
    decreases a,
{
    match (a, b) {
        (DslValue::String(x), DslValue::String(y)) => text::same(x.as_str(), y.as_str()),
        (DslValue::Int(x), DslValue::Int(y)) => *x == *y,
        (DslValue::Float(x), DslValue::Float(y)) => x.equals(y),
        (DslValue::Bool(x), DslValue::Bool(y)) => *x == *y,
        (DslValue::List(x), DslValue::List(y)) => {
            proof {
                lemma_values(x@);
                lemma_values(y@);
            }
            x.len() == y.len() && items_eq(x, y)
        },
        (DslValue::Mapping(x), DslValue::Mapping(y)) => {
            proof {
                lemma_entries(x@);
                lemma_entries(y@);
            }
            entries_eq(x, y)
        },
        (DslValue::UnresolvedIdent(x, m), DslValue::UnresolvedIdent(y, n)) => text::same(x.as_str(), y.as_str())
            && opt_eq(m, n),
        (DslValue::ResourceRef(x, p), DslValue::ResourceRef(y, q)) => text::same(x.as_str(), y.as_str()) && text::same(
            p.as_str(),
            q.as_str(),
        ),
        _ => false,
    }
}

fn opt_eq(a: &Option<String>, b: &Option<String>) -> (r: bool)
    ensures
        r == (text::opt_string(*a) == text::opt_string(*b)),
{
    match (a, b) {
        (Some(x), Some(y)) => text::same(x.as_str(), y.as_str()),
        (None, None) => true,
        _ => false,
    }
}

fn items_eq(a: &Vec<DslValue>, b: &Vec<DslValue>) -> (r: bool)
    requires
        a.len() == b.len(),
    ensures
        r == same_items(values_view(a@), values_view(b@)),
    decreases a@,
{
    let mut i: usize = 0;
    let ghost x = values_view(a@);
    let ghost y = values_view(b@);
    proof {
        lemma_values(a@);
        lemma_values(b@);
    }
    while i < a.len()
        invariant
            i <= a.len(),
            a.len() == b.len(),
            x == values_view(a@),
            y == values_view(b@),
            x.len() == a.len(),
            y.len() == b.len(),
            forall|k: int| 0 <= k < x.len() ==> #[trigger] x[k] == value_view(a@[k]),
            forall|k: int| 0 <= k < y.len() ==> #[trigger] y[k] == value_view(b@[k]),
            same_items(x.subrange(0, i as int), y),
        decreases a.len() - i,
    {
        let ghost upto = x.subrange(0, i + 1);
        proof {
            assert(upto.subrange(0, upto.len() - 1) =~= x.subrange(0, i as int));
            assert(upto[upto.len() - 1] == x[i as int]);
        }
        if !value_eq(&a[i], &b[i]) {
            proof {
                lemma_prefix_items(x, y, i + 1);
            }
            return false;
        }
        i = i + 1;
    }
    assert(x.subrange(0, i as int) =~= x);
    true
}

proof fn lemma_prefix_items(a: Seq<ValueView>, b: Seq<ValueView>, i: int)
    requires
        0 <= i <= a.len(),
    ensures
        same_items(a, b) ==> same_items(a.subrange(0, i), b),
    decreases a.len(),
{
    if i < a.len() {
        lemma_prefix_items(a.subrange(0, a.len() - 1), b, i);
        assert(a.subrange(0, a.len() - 1).subrange(0, i) =~= a.subrange(0, i));
    } else {
        assert(a.subrange(0, i) =~= a);
    }
}

/// Whether two maps are equal.
pub fn entries_eq(a: &Vec<(String, DslValue)>, b: &Vec<(String, DslValue)>) -> (r: bool)
    ensures
        r == same_value(ValueView::Mapping(entries_view(a@)), ValueView::Mapping(entries_view(b@))),
    decreases a@,
{
    let mut i: usize = 0;
    let ghost x = entries_view(a@);
    let ghost y = entries_view(b@);
    proof {
        lemma_entries(a@);
        lemma_entries(b@);
    }
    if a.len() != b.len() {
        return false;
    }
    while i < a.len()
        invariant
            i <= a.len(),
            x == entries_view(a@),
            y == entries_view(b@),
            x.len() == a.len(),
            x.len() == y.len(),
            forall|k: int| 0 <= k < x.len() ==> #[trigger] x[k] == (a@[k].0@, value_view(a@[k].1)),
            found_in(x.subrange(0, i as int), y),
        decreases a.len() - i,
    {
        let ghost upto = x.subrange(0, i + 1);
        proof {
            assert(upto.subrange(0, upto.len() - 1) =~= x.subrange(0, i as int));
            assert(upto[upto.len() - 1] == x[i as int]);
        }
        let same = match get(b, a[i].0.as_str()) {
            Some(v) => value_eq(&a[i].1, v),
            None => false,
        };
        if !same {
            proof {
                lemma_prefix_entries(x, y, i + 1);
            }
            return false;
        }
        i = i + 1;
    }
    assert(x.subrange(0, i as int) =~= x);
    true
}

proof fn lemma_prefix_entries(a: Seq<(Seq<char>, ValueView)>, b: Seq<(Seq<char>, ValueView)>, i: int)
    requires
        0 <= i <= a.len(),
    ensures
        found_in(a, b) ==> found_in(a.subrange(0, i), b),
    decreases a.len(),
{
    if i < a.len() {
        lemma_prefix_entries(a.subrange(0, a.len() - 1), b, i);
        assert(a.subrange(0, a.len() - 1).subrange(0, i) =~= a.subrange(0, i));
    } else {
        assert(a.subrange(0, i) =~= a);
    }
}

} // verus!
