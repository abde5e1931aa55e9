//! Lists of keyed values in ascending order of their keys.
use vstd::prelude::*;

use crate::text;

verus! {

/// `a` comes before `b` in the order of their characters.
pub open spec fn precedes(a: Seq<char>, b: Seq<char>) -> bool
    decreases a.len(),
{
    if b.len() == 0 {
        false
    } else if a.len() == 0 {
        true
    } else if a[0] != b[0] {
        (a[0] as int) < (b[0] as int)
    } else {
        precedes(a.skip(1), b.skip(1))
    }
}

/// The keys of a keyed list.
pub open spec fn keys<W>(m: Seq<(Seq<char>, W)>) -> Seq<Seq<char>> {
    Seq::new(m.len(), |i: int| m[i].0)
}

/// The first position from `i` on whose key does not come before `k`.
pub open spec fn slot_from(ks: Seq<Seq<char>>, k: Seq<char>, i: int) -> int
    decreases ks.len() - i,
{
    if i < 0 || i >= ks.len() || !precedes(ks[i], k) {
        i
    } else {
        slot_from(ks, k, i + 1)
    }
}

/// `m` with `w` under `k`, unless `k` is there already.
pub open spec fn put_absent<W>(m: Seq<(Seq<char>, W)>, k: Seq<char>, w: W) -> Seq<(Seq<char>, W)> {
    let i = slot_from(keys(m), k, 0);
    if i < m.len() && m[i].0 == k {
        m
    } else {
        m.insert(i, (k, w))
    }
}

/// The keys ascend, so that none occurs twice.
pub open spec fn ascending<W>(m: Seq<(Seq<char>, W)>) -> bool {
    forall|i: int, j: int| 0 <= i < j < m.len() ==> precedes(#[trigger] m[i].0, #[trigger] m[j].0)
}

/// The index of the first entry of a table with the key, from `from` on.
pub open spec fn index_from<W>(table: Seq<(Seq<char>, W)>, key: Seq<char>, from: int) -> Option<int>
    decreases table.len() - from,
{
    if from < 0 || from >= table.len() {
        None
    } else if table[from].0 == key {
        Some(from)
    } else {
        index_from(table, key, from + 1)
    }
}

/// What a table says of a key.
pub open spec fn lookup<W>(table: Seq<(Seq<char>, W)>, key: Seq<char>) -> Option<W> {
    match index_from(table, key, 0) {
        Some(i) => Some(table[i].1),
        None => None,
    }
}

/// `m` with `w` under `k`: in the place of the first entry with that key, or at the end.
pub open spec fn set<W>(m: Seq<(Seq<char>, W)>, k: Seq<char>, w: W) -> Seq<(Seq<char>, W)> {
    match index_from(m, k, 0) {
        Some(i) => m.update(i, (k, w)),
        None => m.push((k, w)),
    }
}

/// `m` without the first entry under `k`.
pub open spec fn without<W>(m: Seq<(Seq<char>, W)>, k: Seq<char>) -> Seq<(Seq<char>, W)> {
    match index_from(m, k, 0) {
        Some(i) => m.remove(i),
        None => m,
    }
}

/// No key occurs twice.
pub open spec fn distinct_keys<W>(m: Seq<(Seq<char>, W)>) -> bool {
    forall|i: int, j: int| 0 <= i < m.len() && 0 <= j < m.len() && i != j ==> (#[trigger] m[i]).0 != (#[trigger] m[j]).0
}

/// Looking up finds the first entry with the key.
pub proof fn lemma_index_from<W>(m: Seq<(Seq<char>, W)>, k: Seq<char>, from: int)
    requires
        0 <= from,
    ensures
        match index_from(m, k, from) {
            Some(i) => from <= i < m.len() && m[i].0 == k && forall|j: int| from <= j < i ==> (#[trigger] m[j]).0 != k,
            None => forall|j: int| from <= j < m.len() ==> (#[trigger] m[j]).0 != k,
        },
    decreases m.len() - from,
{
    if from < m.len() && m[from].0 != k {
        lemma_index_from(m, k, from + 1);
    }
}

/// What is set under a key is found there, and nothing else changes.
pub proof fn law_set_then_lookup<W>(m: Seq<(Seq<char>, W)>, k: Seq<char>, w: W, other: Seq<char>)
    ensures
        lookup(set(m, k, w), k) == Some(w),
        other != k ==> lookup(set(m, k, w), other) == lookup(m, other),
        distinct_keys(m) ==> distinct_keys(set(m, k, w)),
{
    let out = set(m, k, w);
    lemma_index_from(m, k, 0);
    lemma_index_from(out, k, 0);
    lemma_index_from(m, other, 0);
    lemma_index_from(out, other, 0);
    if index_from(m, k, 0) is None {
        assert(out[m.len() as int].0 == k);
        if other != k {
            if let Some(i) = index_from(m, other, 0) {
                assert(out[i] == m[i]);
                assert(index_from(out, other, 0) is Some);
                let j = index_from(out, other, 0)->0;
                assert(out[j] == m[j]);
            } else if index_from(out, other, 0) is Some {
                let j = index_from(out, other, 0)->0;
                assert(out[j] == m[j]);
            }
        }
        let j = index_from(out, k, 0)->0;
        if j < m.len() {
            assert(out[j] == m[j]);
        }
    } else {
        let i = index_from(m, k, 0)->0;
        assert(out[i] == (k, w));
        let j = index_from(out, k, 0)->0;
        if j != i {
            assert(out[j] == m[j]);
        }
        if other != k {
            if let Some(a) = index_from(m, other, 0) {
                assert(out[a] == m[a]);
                let b = index_from(out, other, 0)->0;
                assert(out[b] == m[b]);
            } else if index_from(out, other, 0) is Some {
                let b = index_from(out, other, 0)->0;
                assert(out[b] == m[b]);
            }
        }
    }
}

/// What is taken away is found no more, and nothing else changes.
pub proof fn law_without_then_lookup<W>(m: Seq<(Seq<char>, W)>, k: Seq<char>, other: Seq<char>)
    requires
        distinct_keys(m),
    ensures
        lookup(without(m, k), k) is None,
        other != k ==> lookup(without(m, k), other) == lookup(m, other),
        distinct_keys(without(m, k)),
{
    let out = without(m, k);
    lemma_index_from(m, k, 0);
    lemma_index_from(out, k, 0);
    lemma_index_from(m, other, 0);
    lemma_index_from(out, other, 0);
    if let Some(i) = index_from(m, k, 0) {
        assert forall|j: int| 0 <= j < out.len() implies #[trigger] out[j] == m[if j < i { j } else { j + 1 }] by {};
        if let Some(j) = index_from(out, k, 0) {
            assert(out[j].0 == k);
            assert(m[i].0 == k);
        }
        if other != k {
            if let Some(a) = index_from(m, other, 0) {
                let at = if a < i { a } else { a - 1 };
                assert(out[at] == m[a]);
                let b = index_from(out, other, 0)->0;
                assert(out[b].0 == other);
                assert(b == at);
            } else if let Some(b) = index_from(out, other, 0) {
                assert(out[b].0 == other);
            }
        }
    }
}

/// The index of the first entry of a list with the key, from `from` on.
pub open spec fn position_from<V>(entries: Seq<(String, V)>, k: Seq<char>, from: int) -> Option<int>
    decreases entries.len() - from,
{
    if from < 0 || from >= entries.len() {
        None
    } else if entries[from].0@ == k {
        Some(from)
    } else {
        position_from(entries, k, from + 1)
    }
}

/// Finding an entry depends on the keys alone.
pub proof fn lemma_position<V, W>(entries: Seq<(String, V)>, m: Seq<(Seq<char>, W)>, k: Seq<char>, from: int)
    requires
        0 <= from,
        entries.len() == m.len(),
        forall|i: int| 0 <= i < m.len() ==> (#[trigger] entries[i]).0@ == m[i].0,
    ensures
        position_from(entries, k, from) == index_from(m, k, from),
        index_from(m, k, from) matches Some(i) ==> from <= i < m.len(),
    decreases m.len() - from,
{
    if from < m.len() && entries[from].0@ != k {
        lemma_position(entries, m, k, from + 1);
    }
}

/// The index of the first entry with the key.
pub fn position<V>(entries: &Vec<(String, V)>, key: &str) -> (r: Option<usize>)
    ensures
        match r {
            Some(i) => position_from(entries@, key@, 0) == Some(i as int) && i < entries.len(),
            None => position_from(entries@, key@, 0) is None,
        },
{
    let mut i: usize = 0;
    while i < entries.len()
        invariant
            i <= entries.len(),
            position_from(entries@, key@, 0) == position_from(entries@, key@, i as int),
        decreases entries.len() - i,
    {
        if text::same(entries[i].0.as_str(), key) {
            return Some(i);
        }
        i = i + 1;
    }
    None
}

fn code_of(c: char) -> (r: u32)
    ensures
        r as int == c as int,
{
    c as u32
}

fn precedes_chars(a: &Vec<char>, b: &Vec<char>) -> (r: bool)
    ensures
        r == precedes(a@, b@),
{
    let mut i: usize = 0;
    assert(a@.skip(0) =~= a@);
    assert(b@.skip(0) =~= b@);
    loop
        invariant
            i <= a.len(),
            i <= b.len(),
            precedes(a@, b@) == precedes(a@.skip(i as int), b@.skip(i as int)),
        decreases a.len() - i,
    {
        if i >= b.len() {
            return false;
        }
        if i >= a.len() {
            return true;
        }
        assert(a@.skip(i as int)[0] == a@[i as int]);
        assert(b@.skip(i as int)[0] == b@[i as int]);
        if a[i] != b[i] {
            let x: u32 = code_of(a[i]);
            let y: u32 = code_of(b[i]);
            return x < y;
        }
        assert(a@.skip(i as int).skip(1) =~= a@.skip(i + 1));
        assert(b@.skip(i as int).skip(1) =~= b@.skip(i + 1));
        i = i + 1;
    }
}

/// Whether `a` comes before `b` in the order of their characters.
pub fn comes_before(a: &str, b: &str) -> (r: bool)
    ensures
        r == precedes(a@, b@),
{
    precedes_chars(&text::chars_of(a), &text::chars_of(b))
}

/// The keys of a list of entries.
pub open spec fn entry_keys<V>(entries: Seq<(String, V)>) -> Seq<Seq<char>> {
    Seq::new(entries.len(), |i: int| entries[i].0@)
}

/// Where `key` belongs in a list of entries, and whether it is there.
pub fn slot<V>(entries: &Vec<(String, V)>, key: &str) -> (r: (usize, bool))
    ensures
        r.0 <= entries.len(),
        r.0 == slot_from(entry_keys(entries@), key@, 0),
        r.1 == (r.0 < entries.len() && entries@[r.0 as int].0@ == key@),
{
    let mut i: usize = 0;
    while i < entries.len() && comes_before(entries[i].0.as_str(), key)
        invariant
            i <= entries.len(),
            slot_from(entry_keys(entries@), key@, 0) == slot_from(entry_keys(entries@), key@, i as int),
        decreases entries.len() - i,
    {
        i = i + 1;
    }
    let found = i < entries.len() && text::same(entries[i].0.as_str(), key);
    (i, found)
}

proof fn lemma_precedes_transitive(a: Seq<char>, b: Seq<char>, c: Seq<char>)
    requires
        precedes(a, b),
        precedes(b, c),
    ensures
        precedes(a, c),
    decreases a.len(),
{
    if a.len() > 0 && a[0] == b[0] && b[0] == c[0] {
        lemma_precedes_transitive(a.skip(1), b.skip(1), c.skip(1));
    }
}

proof fn lemma_precedes_total(a: Seq<char>, b: Seq<char>)
    ensures
        precedes(a, b) || a == b || precedes(b, a),
    decreases a.len(),
{
    if a.len() > 0 && b.len() > 0 && a[0] == b[0] {
        lemma_precedes_total(a.skip(1), b.skip(1));
        if a.skip(1) == b.skip(1) {
            assert(a =~= seq![a[0]] + a.skip(1));
            assert(b =~= seq![b[0]] + b.skip(1));
        }
    } else if a.len() == 0 && b.len() == 0 {
        assert(a =~= b);
    }
}

/// The slot of a key stands behind every key that precedes it.
pub proof fn lemma_slot(ks: Seq<Seq<char>>, k: Seq<char>, i: int)
    requires
        0 <= i <= ks.len(),
        forall|j: int| 0 <= j < i ==> precedes(#[trigger] ks[j], k),
    ensures
        0 <= slot_from(ks, k, i) <= ks.len(),
        forall|j: int| 0 <= j < slot_from(ks, k, i) ==> precedes(#[trigger] ks[j], k),
        slot_from(ks, k, i) < ks.len() ==> !precedes(ks[slot_from(ks, k, i)], k),
    decreases ks.len() - i,
{
    if i < ks.len() && precedes(ks[i], k) {
        lemma_slot(ks, k, i + 1);
    }
}

/// Adding an absent key to an ascending list keeps it ascending, keeps every
/// entry, and puts the new value under the key unless the key was there.
pub proof fn law_put_absent<W>(m: Seq<(Seq<char>, W)>, k: Seq<char>, w: W)
    requires
        ascending(m),
    ensures
        ascending(put_absent(m, k, w)),
        forall|e: (Seq<char>, W)| m.contains(e) ==> put_absent(m, k, w).contains(e),
        forall|e: (Seq<char>, W)| put_absent(m, k, w).contains(e) ==> m.contains(e) || e == (k, w),
        put_absent(m, k, w).contains((k, w)) || keys(m).contains(k),
{
    let ks = keys(m);
    let s = slot_from(ks, k, 0);
    lemma_slot(ks, k, 0);
    let out = put_absent(m, k, w);
    if s < m.len() && m[s].0 == k {
        assert(ks[s] == k);
    } else {
        assert(out[s] == (k, w));
        if s < m.len() {
            lemma_precedes_total(ks[s], k);
        }
        assert forall|i: int, j: int| 0 <= i < j < out.len() implies precedes(#[trigger] out[i].0, #[trigger] out[j].0) by {
            if j < s {
                assert(out[i] == m[i] && out[j] == m[j]);
            } else if i < s && j == s {
                assert(out[i] == m[i]);
                assert(precedes(ks[i], k));
            } else if i < s {
                assert(out[i] == m[i] && out[j] == m[j - 1]);
            } else if i == s {
                assert(out[j] == m[j - 1]);
                if j - 1 > s {
                    assert(precedes(m[s].0, m[j - 1].0));
                    lemma_precedes_transitive(k, m[s].0, m[j - 1].0);
                }
            } else {
                assert(out[i] == m[i - 1] && out[j] == m[j - 1]);
            }
        }
        assert forall|e: (Seq<char>, W)| m.contains(e) implies out.contains(e) by {
            let i = choose|i: int| 0 <= i < m.len() && m[i] == e;
            if i < s {
                assert(out[i] == e);
            } else {
                assert(out[i + 1] == e);
            }
        }
        assert forall|e: (Seq<char>, W)| out.contains(e) implies m.contains(e) || e == (k, w) by {
            let i = choose|i: int| 0 <= i < out.len() && out[i] == e;
            if i < s {
                assert(m[i] == e);
            } else if i > s {
                assert(m[i - 1] == e);
            }
        }
    }
}

} // verus!
