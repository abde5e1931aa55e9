//! The provider that keeps resources in memory and echoes what it was asked, so
//! that a host can see that its calls arrived.
use vstd::prelude::*;
use vstd::string::*;

use crate::keyed;
use crate::mock::store;
use crate::protocol::types;
use crate::protocol::types::{
    InfoView, PatchOp, PatchOpKind, ProviderInfo, Resource, State, WireOpView, WireResourceView, WireStateView,
};
use crate::protocol::value;
use crate::protocol::value::{WireValue, WireView};
use crate::resource::{IdView, ResourceId};

verus! {

/// The provider that keeps resources in memory: the attributes of each under
/// its key.
#[derive(Debug)]
pub struct MockProcessProvider {
    pub states: Vec<(String, Vec<(String, WireValue)>)>,
}

/// The resources by their keys.
pub open spec fn store_view(s: Seq<(String, Vec<(String, WireValue)>)>) -> Seq<(Seq<char>, Seq<(Seq<char>, WireView)>)> {
    Seq::new(s.len(), |i: int| (s[i].0@, value::entries_view(s[i].1@)))
}

impl View for MockProcessProvider {
    type V = Seq<(Seq<char>, Seq<(Seq<char>, WireView)>)>;

    open spec fn view(&self) -> Seq<(Seq<char>, Seq<(Seq<char>, WireView)>)> {
        store_view(self.states@)
    }
}

/// The state of a resource that exists.
pub open spec fn present(id: IdView, attributes: Seq<(Seq<char>, WireView)>) -> WireStateView {
    WireStateView { id, identifier: Some("mock-id"@), attributes, exists: true }
}

/// The state of a resource that does not exist.
pub open spec fn absent(id: IdView) -> WireStateView {
    WireStateView { id, identifier: None, attributes: Seq::empty(), exists: false }
}

/// The state that a read gives.
pub open spec fn read_from(states: Seq<(Seq<char>, Seq<(Seq<char>, WireView)>)>, id: IdView) -> WireStateView {
    match keyed::lookup(states, store::key_of(id)) {
        Some(attributes) => present(id, attributes),
        None => absent(id),
    }
}

fn make_present(id: &ResourceId, attributes: Vec<(String, WireValue)>) -> (r: State)
    ensures
        r@ == present(id@, value::entries_view(attributes@)),
{
    State { id: id.clone(), identifier: Some("mock-id".to_owned()), attributes, exists: true }
}

/// The name of a kind of operation.
pub open spec fn kind_text(kind: PatchOpKind) -> Seq<char> {
    match kind {
        PatchOpKind::Add => "add"@,
        PatchOpKind::Replace => "replace"@,
        PatchOpKind::Remove => "remove"@,
    }
}

/// The attributes after an operation. One that adds or replaces without a value
/// does nothing.
pub open spec fn patched_once(attributes: Seq<(Seq<char>, WireView)>, op: WireOpView) -> Seq<(Seq<char>, WireView)> {
    match (op.kind, op.value) {
        (PatchOpKind::Remove, _) => keyed::without(attributes, op.key),
        (_, Some(v)) => keyed::set(attributes, op.key, v),
        (_, None) => attributes,
    }
}

/// The attributes after the operations of a patch, one after the other.
pub open spec fn patched(attributes: Seq<(Seq<char>, WireView)>, ops: Seq<WireOpView>) -> Seq<(Seq<char>, WireView)>
    decreases ops.len(),
{
    if ops.len() == 0 {
        attributes
    } else {
        patched_once(patched(attributes, ops.drop_last()), ops.last())
    }
}

/// The operations of a patch as texts, each a kind and a key.
pub open spec fn op_texts(ops: Seq<WireOpView>) -> Seq<WireView> {
    ops.map_values(|op: WireOpView| WireView::String(kind_text(op.kind) + ":"@ + op.key))
}

/// The attributes after an update: patched, with the operations as texts under
/// a key of their own.
pub open spec fn updated(attributes: Seq<(Seq<char>, WireView)>, ops: Seq<WireOpView>) -> Seq<(Seq<char>, WireView)> {
    keyed::set(patched(attributes, ops), "__mock_patch_ops__"@, WireView::List(op_texts(ops)))
}

fn op_text(op: &PatchOp) -> (r: WireValue)
    ensures
        r@ == WireView::String(kind_text(op@.kind) + ":"@ + op@.key),
{
    let mut s = match op.kind {
        PatchOpKind::Add => "add".to_owned(),
        PatchOpKind::Replace => "replace".to_owned(),
        PatchOpKind::Remove => "remove".to_owned(),
    };
    s.append(":");
    s.append(op.key.as_str());
    WireValue::String(s)
}

fn apply_patch(attributes: &mut Vec<(String, WireValue)>, ops: &Vec<PatchOp>) -> (r: Vec<WireValue>)
    ensures
        value::entries_view(final(attributes)@) == patched(
            value::entries_view(old(attributes)@),
            types::ops_view(ops@),
        ),
        value::values_view(r@) == op_texts(types::ops_view(ops@)),
{
    let ghost start = value::entries_view(attributes@);
    let ghost all = types::ops_view(ops@);
    let ghost goal = op_texts(all);
    let mut texts: Vec<WireValue> = Vec::new();
    let mut i: usize = 0;
    assert(goal.take(0) =~= Seq::empty());
    while i < ops.len()
        invariant
            i <= ops.len(),
            all == types::ops_view(ops@),
            goal == op_texts(all),
            value::entries_view(attributes@) == patched(start, all.take(i as int)),
            value::values_view(texts@) == goal.take(i as int),
        decreases ops.len() - i,
    {
        let t = op_text(&ops[i]);
        proof {
            assert(all.take(i + 1).drop_last() =~= all.take(i as int));
            assert(all.take(i + 1).last() == ops@[i as int]@);
            value::lemma_push_value(texts@, t);
            assert(goal.take(i + 1) =~= goal.take(i as int).push(goal[i as int]));
        }
        texts.push(t);
        match ops[i].kind {
            PatchOpKind::Remove => {
                value::take_out(attributes, ops[i].key.as_str());
            },
            _ => {
                if let Some(v) = &ops[i].value {
                    value::put(attributes, ops[i].key.clone(), v.clone());
                }
            },
        }
        i = i + 1;
    }
    assert(all.take(i as int) =~= all);
    assert(goal.take(i as int) =~= goal);
    texts
}

/// A tag as it is echoed.
pub open spec fn echoed_tag(key: Seq<char>, v: WireView) -> WireView {
    WireView::Mapping(Seq::empty().push(("k"@, WireView::String(key))).push(("v"@, v)))
}

/// The tags as they are echoed.
pub open spec fn echoed_tags(tags: Seq<(Seq<char>, WireView)>) -> WireView {
    WireView::List(tags.map_values(|t: (Seq<char>, WireView)| echoed_tag(t.0, t.1)))
}

/// A resource with the tags that it would get under a key of their own.
pub open spec fn with_echoed_tags(r: WireResourceView, tags: Seq<(Seq<char>, WireView)>) -> WireResourceView {
    WireResourceView {
        attributes: keyed::set(r.attributes, "__mock_merged_default_tags__"@, echoed_tags(tags)),
        ..r
    }
}

fn echo_tags(tags: &Vec<(String, WireValue)>) -> (r: Vec<WireValue>)
    ensures
        WireView::List(value::values_view(r@)) == echoed_tags(value::entries_view(tags@)),
{
    let ghost all = value::entries_view(tags@);
    let ghost goal = all.map_values(|t: (Seq<char>, WireView)| echoed_tag(t.0, t.1));
    let mut out: Vec<WireValue> = Vec::new();
    let mut i: usize = 0;
    proof {
        value::lemma_entries(tags@);
    }
    assert(goal.take(0) =~= Seq::empty());
    while i < tags.len()
        invariant
            i <= tags.len(),
            all.len() == tags.len(),
            goal == all.map_values(|t: (Seq<char>, WireView)| echoed_tag(t.0, t.1)),
            forall|k: int| 0 <= k < all.len() ==> #[trigger] all[k] == (tags@[k].0@, value::value_view(tags@[k].1)),
            value::values_view(out@) == goal.take(i as int),
        decreases tags.len() - i,
    {
        let mut pair: Vec<(String, WireValue)> = Vec::new();
        let k = ("k".to_owned(), WireValue::String(tags[i].0.clone()));
        let v = ("v".to_owned(), tags[i].1.clone());
        proof {
            value::lemma_push_entry(pair@, k);
            value::lemma_push_entry(pair@.push(k), v);
        }
        pair.push(k);
        pair.push(v);
        let tag = WireValue::Mapping(pair);
        proof {
            assert(all[i as int] == (tags@[i as int].0@, tags@[i as int].1@));
            value::lemma_push_value(out@, tag);
            assert(goal.take(i + 1) =~= goal.take(i as int).push(goal[i as int]));
        }
        out.push(tag);
        i = i + 1;
    }
    assert(goal.take(i as int) =~= goal);
    out
}

impl Default for MockProcessProvider {
    fn default() -> (r: Self)
        ensures
            r@ == Seq::<(Seq<char>, Seq<(Seq<char>, WireView)>)>::empty(),
    {
        let r = MockProcessProvider { states: Vec::new() };
        assert(r@ =~= Seq::empty());
        r
    }
}

impl MockProcessProvider {
    fn find(&self, id: &ResourceId) -> (r: Option<usize>)
        ensures
            match r {
                Some(i) => i < self.states.len() && keyed::index_from(self@, store::key_of(id@), 0) == Some(i as int),
                None => keyed::index_from(self@, store::key_of(id@), 0) is None,
            },
    {
        let key = store::resource_key(id);
        proof {
            let m = self@;
            assert forall|i: int| 0 <= i < self.states@.len() implies (#[trigger] self.states@[i]).0@ == m[i].0 by {};
            keyed::lemma_position(self.states@, m, key@, 0);
        }
        keyed::position(&self.states, key.as_str())
    }

    fn keep(&mut self, id: &ResourceId, attributes: Vec<(String, WireValue)>)
        ensures
            final(self)@ == keyed::set(old(self)@, store::key_of(id@), value::entries_view(attributes@)),
    {
        let ghost before = self@;
        let ghost e = (store::key_of(id@), value::entries_view(attributes@));
        let key = store::resource_key(id);
        match self.find(id) {
            Some(i) => {
                self.states.set(i, (key, attributes));
                assert(self@ =~= before.update(i as int, e));
            },
            None => {
                self.states.push((key, attributes));
                assert(self@ =~= before.push(e));
            },
        }
    }

    /// What the provider says of itself.
    pub fn info(&self, version: &str) -> (r: ProviderInfo)
        ensures
            r@ == (InfoView {
                name: "mock"@,
                display_name: "Mock Provider (Process)"@,
                capabilities: Seq::empty(),
                version: version@,
            }),
    {
        let r = ProviderInfo {
            name: "mock".to_owned(),
            display_name: "Mock Provider (Process)".to_owned(),
            capabilities: Vec::new(),
            version: version.to_owned(),
        };
        assert(r@.capabilities =~= Seq::empty());
        r
    }

    /// The state of a resource.
    pub fn read(&self, id: &ResourceId) -> (r: State)
        ensures
            r@ == read_from(self@, id@),
    {
        match self.find(id) {
            Some(i) => make_present(id, value::copy_entries(&self.states[i].1)),
            None => {
                let r = State { id: id.clone(), identifier: None, attributes: Vec::new(), exists: false };
                assert(r@.attributes =~= Seq::empty());
                r
            },
        }
    }

    /// The state of a data source: what was asked, with a mark.
    pub fn read_data_source(&self, resource: &Resource) -> (r: State)
        ensures
            r@ == present(
                resource@.id,
                keyed::set(resource@.attributes, "__mock_read_data_source__"@, WireView::Bool(true)),
            ),
    {
        let mut attributes = value::copy_entries(&resource.attributes);
        value::put(&mut attributes, "__mock_read_data_source__".to_owned(), WireValue::Bool(true));
        make_present(&resource.id, attributes)
    }

    /// Creates a resource.
    pub fn create(&mut self, id: &ResourceId, resource: &Resource) -> (r: State)
        ensures
            final(self)@ == keyed::set(old(self)@, store::key_of(id@), resource@.attributes),
            r@ == present(id@, resource@.attributes),
    {
        self.keep(id, value::copy_entries(&resource.attributes));
        make_present(id, value::copy_entries(&resource.attributes))
    }

    /// Updates a resource by a patch on its state.
    pub fn update(&mut self, id: &ResourceId, from: &State, ops: &Vec<PatchOp>) -> (r: State)
        ensures
            final(self)@ == keyed::set(
                old(self)@,
                store::key_of(id@),
                updated(from@.attributes, types::ops_view(ops@)),
            ),
            r@ == present(id@, updated(from@.attributes, types::ops_view(ops@))),
    {
        let mut attributes = value::copy_entries(&from.attributes);
        let texts = apply_patch(&mut attributes, ops);
        value::put(&mut attributes, "__mock_patch_ops__".to_owned(), WireValue::List(texts));
        self.keep(id, value::copy_entries(&attributes));
        make_present(id, attributes)
    }

    /// Updates a resource to what is wanted.
    pub fn replace(&mut self, id: &ResourceId, to: &Resource) -> (r: State)
        ensures
            final(self)@ == keyed::set(old(self)@, store::key_of(id@), to@.attributes),
            r@ == present(id@, to@.attributes),
    {
        self.create(id, to)
    }

    /// Deletes a resource.
    pub fn delete(&mut self, id: &ResourceId)
        ensures
            final(self)@ == keyed::without(old(self)@, store::key_of(id@)),
    {
        let ghost before = self@;
        if let Some(i) = self.find(id) {
            self.states.remove(i);
            assert(self@ =~= before.remove(i as int));
        }
    }

    /// Adds the tags that each resource would get under a key of their own.
    pub fn merge_default_tags(&self, resources: &mut Vec<Resource>, default_tags: &Vec<(String, WireValue)>)
        ensures
            types::resources_view(final(resources)@) == types::resources_view(old(resources)@).map_values(
                |r: WireResourceView| with_echoed_tags(r, value::entries_view(default_tags@)),
            ),
    {
        let ghost before = types::resources_view(resources@);
        let ghost tags = value::entries_view(default_tags@);
        let n: usize = resources.len();
        let mut i: usize = 0;
        while i < n
            invariant
                i <= n,
                n == before.len(),
                resources.len() == n,
                tags == value::entries_view(default_tags@),
                forall|k: int| 0 <= k < i ==> (#[trigger] resources@[k])@ == with_echoed_tags(before[k], tags),
                forall|k: int| i <= k < n ==> (#[trigger] resources@[k])@ == before[k],
            decreases n - i,
        {
            let echoed = WireValue::List(echo_tags(default_tags));
            value::put(&mut resources[i].attributes, "__mock_merged_default_tags__".to_owned(), echoed);
            assert(resources@[i as int]@ =~= with_echoed_tags(before[i as int], tags));
            i = i + 1;
        }
        assert(types::resources_view(resources@) =~= before.map_values(
            |r: WireResourceView| with_echoed_tags(r, tags),
        ));
    }
}

/// A read after a create or an update gives the attributes that were left, and
/// other resources stay as they were.
pub proof fn law_read_after_write(
    states: Seq<(Seq<char>, Seq<(Seq<char>, WireView)>)>,
    id: IdView,
    attributes: Seq<(Seq<char>, WireView)>,
    other: IdView,
)
    ensures
        read_from(keyed::set(states, store::key_of(id), attributes), id) == present(id, attributes),
        store::key_of(other) != store::key_of(id) ==> read_from(
            keyed::set(states, store::key_of(id), attributes),
            other,
        ) == read_from(states, other),
{
    keyed::law_set_then_lookup(states, store::key_of(id), attributes, store::key_of(other));
}

/// A resource that was deleted is not found, and other resources stay as they
/// were.
pub proof fn law_read_after_delete(
    states: Seq<(Seq<char>, Seq<(Seq<char>, WireView)>)>,
    id: IdView,
    other: IdView,
)
    requires
        keyed::distinct_keys(states),
    ensures
        read_from(keyed::without(states, store::key_of(id)), id) == absent(id),
        store::key_of(other) != store::key_of(id) ==> read_from(
            keyed::without(states, store::key_of(id)),
            other,
        ) == read_from(states, other),
{
    keyed::law_without_then_lookup(states, store::key_of(id), store::key_of(other));
}

} // verus!
