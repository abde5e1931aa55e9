//! What the mock provider in a process of its own keeps and echoes.
use vstd::prelude::*;

use crate::keyed;
use crate::mock::process;
use crate::protocol::types::{PatchOpKind, WireOpView, WireResourceView};
use crate::protocol::value::WireView;

verus! {

/// An operation changes the attribute under its key and no other: it takes it away,
/// or gives it the value that it carries.
pub proof fn law_operations_change_one_attribute(
    attributes: Seq<(Seq<char>, WireView)>,
    ops: Seq<WireOpView>,
    op: WireOpView,
    key: Seq<char>,
)
    requires
        keyed::distinct_keys(attributes),
    ensures
        process::patched(attributes, Seq::empty()) == attributes,
        ({
            let before = process::patched(attributes, ops);
            let after = process::patched(attributes, ops.push(op));
            &&& key != op.key ==> keyed::lookup(after, key) == keyed::lookup(before, key)
            &&& op.kind is Remove ==> keyed::lookup(after, op.key) is None
            &&& !(op.kind is Remove) && op.value is Some ==> keyed::lookup(after, op.key) == op.value
            &&& !(op.kind is Remove) && op.value is None ==> after == before
            &&& keyed::distinct_keys(after)
        }),
{
    lemma_distinct(attributes, ops);
    let before = process::patched(attributes, ops);
    assert(ops.push(op).drop_last() =~= ops);
    keyed::law_without_then_lookup(before, op.key, key);
    if let Some(v) = op.value {
        keyed::law_set_then_lookup(before, op.key, v, key);
    }
}

proof fn lemma_distinct(attributes: Seq<(Seq<char>, WireView)>, ops: Seq<WireOpView>)
    requires
        keyed::distinct_keys(attributes),
    ensures
        keyed::distinct_keys(process::patched(attributes, ops)),
    decreases ops.len(),
{
    if ops.len() > 0 {
        lemma_distinct(attributes, ops.drop_last());
        let before = process::patched(attributes, ops.drop_last());
        let op = ops.last();
        keyed::law_without_then_lookup(before, op.key, op.key);
        if let Some(v) = op.value {
            keyed::law_set_then_lookup(before, op.key, v, op.key);
        }
    }
}

/// An update keeps what the patch leaves, and lists the operations under a key of
/// their own: each as its kind and its key, in order.
pub proof fn law_updates_list_their_operations(
    attributes: Seq<(Seq<char>, WireView)>,
    ops: Seq<WireOpView>,
    i: int,
    key: Seq<char>,
)
    ensures
        key != "__mock_patch_ops__"@ ==> keyed::lookup(process::updated(attributes, ops), key) == keyed::lookup(
            process::patched(attributes, ops),
            key,
        ),
        keyed::lookup(process::updated(attributes, ops), "__mock_patch_ops__"@) == Some(
            WireView::List(process::op_texts(ops)),
        ),
        process::op_texts(ops).len() == ops.len(),
        0 <= i < ops.len() ==> process::op_texts(ops)[i] == WireView::String(
            (match ops[i].kind {
                PatchOpKind::Add => "add:"@,
                PatchOpKind::Replace => "replace:"@,
                PatchOpKind::Remove => "remove:"@,
            }) + ops[i].key,
        ),
{
    keyed::law_set_then_lookup(
        process::patched(attributes, ops),
        "__mock_patch_ops__"@,
        WireView::List(process::op_texts(ops)),
        key,
    );
    reveal_strlit("add:");
    reveal_strlit("replace:");
    reveal_strlit("remove:");
    reveal_strlit("add");
    reveal_strlit("replace");
    reveal_strlit("remove");
    reveal_strlit(":");
    assert("add:"@ =~= "add"@ + ":"@);
    assert("replace:"@ =~= "replace"@ + ":"@);
    assert("remove:"@ =~= "remove"@ + ":"@);
}

/// The default tags are echoed under a key of their own, each with its key and its
/// value, in order. The resource is otherwise as it was.
pub proof fn law_default_tags_are_echoed(
    r: WireResourceView,
    tags: Seq<(Seq<char>, WireView)>,
    i: int,
    key: Seq<char>,
)
    ensures
        ({
            let made = process::with_echoed_tags(r, tags);
            &&& made.id == r.id
            &&& key != "__mock_merged_default_tags__"@ ==> keyed::lookup(made.attributes, key) == keyed::lookup(
                r.attributes,
                key,
            )
            &&& keyed::lookup(made.attributes, "__mock_merged_default_tags__"@) matches Some(WireView::List(items))
                && items.len() == tags.len() && (0 <= i < tags.len() ==> (items[i] matches WireView::Mapping(m)
                && m.len() == 2 && keyed::lookup(m, "k"@) == Some(WireView::String(tags[i].0)) && keyed::lookup(m, "v"@)
                == Some(tags[i].1)))
        }),
{
    let echoed = process::echoed_tags(tags);
    keyed::law_set_then_lookup(r.attributes, "__mock_merged_default_tags__"@, echoed, key);
    reveal_strlit("k");
    reveal_strlit("v");
    assert("k"@[0] != "v"@[0]);
    reveal_with_fuel(keyed::index_from, 3);
}

} // verus!
