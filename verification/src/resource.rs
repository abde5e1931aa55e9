//! Resources as the configuration language describes them, and their states as
//! the provider reports them.
use vstd::prelude::*;

use crate::keyed;
use crate::protocol::types::PatchOpKind;
use crate::text;
use crate::value;
use crate::value::{DslValue, ValueView};

verus! {

/// What tells one resource from another.
#[derive(Debug)]
pub struct ResourceId {
    pub provider: String,
    pub resource_type: String,
    pub name: String,
}

#[verifier::ext_equal]
pub struct IdView {
    pub provider: Seq<char>,
    pub resource_type: Seq<char>,
    pub name: Seq<char>,
}

impl View for ResourceId {
    type V = IdView;

    open spec fn view(&self) -> IdView {
        IdView { provider: self.provider@, resource_type: self.resource_type@, name: self.name@ }
    }
}

impl Clone for ResourceId {
    fn clone(&self) -> (r: Self)
        ensures
            r@ == self@,
    {
        ResourceId {
            provider: self.provider.clone(),
            resource_type: self.resource_type.clone(),
            name: self.name.clone(),
        }
    }
}

impl ResourceId {
    /// The id of a resource of a provider.
    pub fn with_provider(provider: &str, resource_type: &str, name: &str) -> (r: ResourceId)
        ensures
            r@ == (IdView { provider: provider@, resource_type: resource_type@, name: name@ }),
    {
        ResourceId {
            provider: provider.to_owned(),
            resource_type: resource_type.to_owned(),
            name: name.to_owned(),
        }
    }

    /// Whether two ids are the same.
    pub fn same(&self, other: &ResourceId) -> (r: bool)
        ensures
            r == (self@ == other@),
    {
        let r = text::same(self.provider.as_str(), other.provider.as_str()) && text::same(
            self.resource_type.as_str(),
            other.resource_type.as_str(),
        ) && text::same(self.name.as_str(), other.name.as_str());
        assert(r == (self@ =~= other@));
        r
    }
}

/// How a resource is to be replaced and deleted.
#[derive(Debug, Clone, Copy, PartialEq, Eq, Structural)]
pub struct LifecycleConfig {
    pub force_delete: bool,
    pub create_before_destroy: bool,
}

/// A resource that is wanted. No attribute occurs twice.
#[derive(Debug)]
pub struct Resource {
    pub id: ResourceId,
    pub attributes: Vec<(String, DslValue)>,
}

#[verifier::ext_equal]
pub struct ResourceView {
    pub id: IdView,
    pub attributes: Seq<(Seq<char>, ValueView)>,
}

impl View for Resource {
    type V = ResourceView;

    open spec fn view(&self) -> ResourceView {
        ResourceView { id: self.id@, attributes: value::entries_view(self.attributes@) }
    }
}

/// The views of a list of resources.
pub open spec fn resources_view(s: Seq<Resource>) -> Seq<ResourceView> {
    Seq::new(s.len(), |i: int| s[i]@)
}

/// A resource as it is. No attribute occurs twice.
#[derive(Debug)]
pub struct State {
    pub id: ResourceId,
    pub identifier: Option<String>,
    pub attributes: Vec<(String, DslValue)>,
    pub exists: bool,
}

#[verifier::ext_equal]
pub struct StateView {
    pub id: IdView,
    pub identifier: Option<Seq<char>>,
    pub attributes: Seq<(Seq<char>, ValueView)>,
    pub exists: bool,
}

impl View for State {
    type V = StateView;

    open spec fn view(&self) -> StateView {
        StateView {
            id: self.id@,
            identifier: text::opt_string(self.identifier),
            attributes: value::entries_view(self.attributes@),
            exists: self.exists,
        }
    }
}

/// The state of a resource that does not exist.
pub open spec fn absent(id: IdView) -> StateView {
    StateView { id, identifier: None, attributes: Seq::empty(), exists: false }
}

/// The state of a resource that exists.
pub open spec fn present(
    id: IdView,
    attributes: Seq<(Seq<char>, ValueView)>,
    identifier: Option<Seq<char>>,
) -> StateView {
    StateView { id, identifier, attributes, exists: true }
}

impl State {
    /// The state of a resource that does not exist.
    pub fn not_found(id: ResourceId) -> (r: State)
        ensures
            r@ == absent(id@),
    {
        let r = State { id, identifier: None, attributes: Vec::new(), exists: false };
        assert(r@.attributes =~= Seq::empty());
        r
    }

    /// The state of a resource that exists.
    pub fn existing(id: ResourceId, attributes: Vec<(String, DslValue)>) -> (r: State)
        ensures
            r@ == present(id@, value::entries_view(attributes@), None),
    {
        State { id, identifier: None, attributes, exists: true }
    }

    /// The state with the identifier by which the provider knows the resource.
    pub fn with_identifier(self, identifier: &str) -> (r: State)
        ensures
            r@ == (StateView { identifier: Some(identifier@), ..self@ }),
    {
        State { identifier: Some(identifier.to_owned()), ..self }
    }
}

/// An operation of a patch on the attributes of a resource.
#[derive(Debug)]
pub struct PatchOp {
    pub kind: PatchOpKind,
    pub key: String,
    /// The value that an `Add` or a `Replace` puts there.
    pub value: Option<DslValue>,
}

#[verifier::ext_equal]
pub struct OpView {
    pub kind: PatchOpKind,
    pub key: Seq<char>,
    pub value: Option<ValueView>,
}

impl View for PatchOp {
    type V = OpView;

    open spec fn view(&self) -> OpView {
        OpView { kind: self.kind, key: self.key@, value: value::opt_value(self.value) }
    }
}

/// The views of a list of operations.
pub open spec fn ops_view(s: Seq<PatchOp>) -> Seq<OpView> {
    Seq::new(s.len(), |i: int| s[i]@)
}

/// The attributes after an operation. One that adds or replaces without a value
/// does nothing.
pub open spec fn patched_once(attributes: Seq<(Seq<char>, ValueView)>, op: OpView) -> Seq<(Seq<char>, ValueView)> {
    match (op.kind, op.value) {
        (PatchOpKind::Remove, _) => keyed::without(attributes, op.key),
        (_, Some(v)) => keyed::set(attributes, op.key, v),
        (_, None) => attributes,
    }
}

/// The attributes after the operations of a patch, one after the other.
pub open spec fn patched(attributes: Seq<(Seq<char>, ValueView)>, ops: Seq<OpView>) -> Seq<(Seq<char>, ValueView)>
    decreases ops.len(),
{
    if ops.len() == 0 {
        attributes
    } else {
        patched_once(patched(attributes, ops.drop_last()), ops.last())
    }
}

/// Makes the operations of a patch, one after the other.
pub fn apply_patch(attributes: &mut Vec<(String, DslValue)>, ops: &Vec<PatchOp>)
    ensures
        value::entries_view(final(attributes)@) == patched(value::entries_view(old(attributes)@), ops_view(ops@)),
{
    let ghost start = value::entries_view(attributes@);
    let ghost all = ops_view(ops@);
    let mut i: usize = 0;
    while i < ops.len()
        invariant
            i <= ops.len(),
            all == ops_view(ops@),
            value::entries_view(attributes@) == patched(start, all.take(i as int)),
        decreases ops.len() - i,
    {
        proof {
            assert(all.take(i + 1).drop_last() =~= all.take(i as int));
            assert(all.take(i + 1).last() == ops@[i as int]@);
        }
        match ops[i].kind {
            PatchOpKind::Remove => {
                value::take_out(attributes, ops[i].key.as_str());
            },
            _ => {
                if let Some(v) = &ops[i].value {
                    value::put(attributes, ops[i].key.clone(), v.clone());
                }
            },
        }
        i = i + 1;
    }
    assert(all.take(i as int) =~= all);
}

/// A patch leaves every attribute alone that none of its operations names.
pub proof fn law_patch_leaves_the_rest(attributes: Seq<(Seq<char>, ValueView)>, ops: Seq<OpView>, key: Seq<char>)
    requires
        keyed::distinct_keys(attributes),
        forall|i: int| 0 <= i < ops.len() ==> (#[trigger] ops[i]).key != key,
    ensures
        keyed::lookup(patched(attributes, ops), key) == keyed::lookup(attributes, key),
        keyed::distinct_keys(patched(attributes, ops)),
    decreases ops.len(),
{
    if ops.len() > 0 {
        let before = ops.drop_last();
        assert forall|i: int| 0 <= i < before.len() implies (#[trigger] before[i]).key != key by {
            assert(before[i] == ops[i]);
        }
        law_patch_leaves_the_rest(attributes, before, key);
        let op = ops.last();
        assert(op == ops[ops.len() - 1]);
        let so_far = patched(attributes, before);
        keyed::law_without_then_lookup(so_far, op.key, key);
        if let Some(v) = op.value {
            keyed::law_set_then_lookup(so_far, op.key, v, key);
        }
    }
}

/// A patch keeps the attributes distinct.
proof fn lemma_patched_stays_distinct(attributes: Seq<(Seq<char>, ValueView)>, ops: Seq<OpView>)
    requires
        keyed::distinct_keys(attributes),
    ensures
        keyed::distinct_keys(patched(attributes, ops)),
    decreases ops.len(),
{
    if ops.len() > 0 {
        let op = ops.last();
        lemma_patched_stays_distinct(attributes, ops.drop_last());
        let so_far = patched(attributes, ops.drop_last());
        keyed::law_without_then_lookup(so_far, op.key, op.key);
        if let Some(v) = op.value {
            keyed::law_set_then_lookup(so_far, op.key, v, op.key);
        }
    }
}

/// What the last operation on an attribute puts there is there afterwards, and
/// what it removes is gone.
pub proof fn law_last_op_decides(attributes: Seq<(Seq<char>, ValueView)>, ops: Seq<OpView>, i: int)
    requires
        keyed::distinct_keys(attributes),
        0 <= i < ops.len(),
        forall|j: int| i < j < ops.len() ==> (#[trigger] ops[j]).key != ops[i].key,
    ensures
        ops[i].kind == PatchOpKind::Remove ==> keyed::lookup(patched(attributes, ops), ops[i].key) is None,
        ops[i].kind != PatchOpKind::Remove && ops[i].value is Some ==> keyed::lookup(
            patched(attributes, ops),
            ops[i].key,
        ) == ops[i].value,
    decreases ops.len(),
{
    let before = ops.drop_last();
    let op = ops.last();
    let so_far = patched(attributes, before);
    lemma_patched_stays_distinct(attributes, before);
    assert(op == ops[ops.len() - 1]);
    keyed::law_without_then_lookup(so_far, op.key, ops[i].key);
    if let Some(v) = op.value {
        keyed::law_set_then_lookup(so_far, op.key, v, ops[i].key);
    }
    if i < before.len() {
        assert forall|j: int| i < j < before.len() implies (#[trigger] before[j]).key != before[i].key by {
            assert(before[j] == ops[j]);
        }
        law_last_op_decides(attributes, before, i);
    }
}

} // verus!
