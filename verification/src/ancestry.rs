//! Laws of the tabbed-ancestry walk.
//!
//! A position in a tree is addressed by a path: the sequence of child
//! indexes taken from the root. The lemmas here relate the result of
//! `spec_has_tabbed_ancestor` to the layouts found along the path that
//! leads to the target node.

use vstd::prelude::*;

use crate::tree::WindowNode;
use crate::tree::spec_has_tabbed_ancestor;
use crate::tree::spec_is_tabbed_or_stacked;

verus! {

/// `path` names an existing position in the tree under `node`: each entry
/// indexes into the children of the node reached so far.
pub open spec fn is_valid_path(node: WindowNode, path: Seq<int>) -> bool
    decreases path.len(),
{
    path.len() == 0 || {
        &&& 0 <= path[0] < node.nodes@.len()
        &&& is_valid_path(node.nodes@[path[0]], path.subrange(1, path.len() as int))
    }
}

/// The node reached from `node` by following `path`.
pub open spec fn node_at(node: WindowNode, path: Seq<int>) -> WindowNode
    decreases path.len(),
{
    if path.len() == 0 {
        node
    } else {
        node_at(node.nodes@[path[0]], path.subrange(1, path.len() as int))
    }
}

/// Some strict ancestor on `path` — the root included, the node at `path`
/// excluded — has a tabbed or stacked layout.
pub open spec fn tabbed_on_path(node: WindowNode, path: Seq<int>) -> bool {
    exists|k: int|
        0 <= k < path.len() && spec_is_tabbed_or_stacked(
            (#[trigger] node_at(node, path.subrange(0, k))).layout,
        )
}

/// The subtree under `node` holds a node with id `target_id`.
pub open spec fn subtree_contains_id(node: WindowNode, target_id: u64) -> bool
    decreases node,
{
    node.id == target_id || exists|i: int|
        0 <= i < node.nodes@.len() && subtree_contains_id(node.nodes@[i], target_id)
}

/// `path` leads to the one and only node with id `target_id` in the tree
/// under `root`: ids are unique within a snapshot, so a well-formed tree
/// admits such a path for every id it holds.
pub open spec fn is_only_occurrence(root: WindowNode, target_id: u64, path: Seq<int>) -> bool {
    &&& is_valid_path(root, path)
    &&& node_at(root, path).id == target_id
    &&& forall|q: Seq<int>|
        #![trigger is_valid_path(root, q), node_at(root, q)]
        is_valid_path(root, q) && node_at(root, q).id == target_id ==> q == path
}

/// Every prefix of a valid path is a valid path.
proof fn lemma_valid_prefix(node: WindowNode, path: Seq<int>, k: int)
    requires
        is_valid_path(node, path),
        0 <= k <= path.len(),
    ensures
        is_valid_path(node, path.subrange(0, k)),
    decreases k,
{
    if k > 0 {
        let tail = path.subrange(1, path.len() as int);
        lemma_valid_prefix(node.nodes@[path[0]], tail, k - 1);
        assert(path.subrange(0, k).subrange(1, k) =~= tail.subrange(0, k - 1));
    }
}

/// Following a non-empty prefix of `path` is following its head index and
/// then the matching prefix of the tail.
proof fn lemma_node_at_prefix(node: WindowNode, path: Seq<int>, k: int)
    requires
        0 < k <= path.len(),
    ensures
        node_at(node, path.subrange(0, k)) == node_at(
            node.nodes@[path[0]],
            path.subrange(1, path.len() as int).subrange(0, k - 1),
        ),
{
    let pre = path.subrange(0, k);
    let tail = path.subrange(1, path.len() as int);
    assert(pre.subrange(1, k) =~= tail.subrange(0, k - 1));
}

/// Prepending a child index to a path valid under that child gives a path
/// valid under the parent, leading to the same node.
proof fn lemma_cons_path(node: WindowNode, i: int, q: Seq<int>)
    requires
        0 <= i < node.nodes@.len(),
        is_valid_path(node.nodes@[i], q),
    ensures
        is_valid_path(node, seq![i] + q),
        node_at(node, seq![i] + q) == node_at(node.nodes@[i], q),
        (seq![i] + q).len() == q.len() + 1,
        (seq![i] + q)[0] == i,
{
    let p = seq![i] + q;
    assert(p[0] == i);
    assert(p.subrange(1, p.len() as int) =~= q);
}

/// A subtree that holds `target_id` holds it at some valid path.
proof fn lemma_contains_gives_path(node: WindowNode, target_id: u64)
    requires
        subtree_contains_id(node, target_id),
    ensures
        exists|p: Seq<int>|
            #![trigger is_valid_path(node, p), node_at(node, p)]
            is_valid_path(node, p) && node_at(node, p).id == target_id,
    decreases node,
{
    if node.id == target_id {
        let p = Seq::<int>::empty();
        assert(is_valid_path(node, p) && node_at(node, p).id == target_id);
    } else {
        let i = choose|i: int|
            0 <= i < node.nodes@.len() && subtree_contains_id(node.nodes@[i], target_id);
        lemma_contains_gives_path(node.nodes@[i], target_id);
        let q = choose|q: Seq<int>|
            #![trigger is_valid_path(node.nodes@[i], q), node_at(node.nodes@[i], q)]
            is_valid_path(node.nodes@[i], q) && node_at(node.nodes@[i], q).id == target_id;
        lemma_cons_path(node, i, q);
        assert(is_valid_path(node, seq![i] + q) && node_at(node, seq![i] + q).id == target_id);
    }
}

/// A tree without the target yields false, whatever flag is inherited:
/// a focused window absent from the fetched snapshot is reported as having
/// no tabbed ancestor.
pub proof fn lemma_absent_target_yields_false(node: WindowNode, target_id: u64, inherited: bool)
    requires
        !subtree_contains_id(node, target_id),
    ensures
        !spec_has_tabbed_ancestor(node, target_id, inherited),
    decreases node,
{
    let flag = inherited || spec_is_tabbed_or_stacked(node.layout);
    assert forall|i: int|
        0 <= i < node.nodes@.len() implies !spec_has_tabbed_ancestor(
        node.nodes@[i],
        target_id,
        flag,
    ) by {
        assert(!subtree_contains_id(node.nodes@[i], target_id));
        lemma_absent_target_yields_false(node.nodes@[i], target_id, flag);
    }
}

/// If the flag that the walk carries down to the target is true — seeded
/// true, or made true by a tabbed node on the way — the walk reports true.
/// The prefix condition keeps the walk from stopping early at another node
/// that carries the target id.
proof fn lemma_flagged_path_yields_true(
    node: WindowNode,
    target_id: u64,
    path: Seq<int>,
    inherited: bool,
)
    requires
        is_valid_path(node, path),
        node_at(node, path).id == target_id,
        forall|k: int|
            0 <= k < path.len() ==> (#[trigger] node_at(node, path.subrange(0, k))).id
                != target_id,
        inherited || tabbed_on_path(node, path),
    ensures
        spec_has_tabbed_ancestor(node, target_id, inherited),
    decreases path.len(),
{
    assert(path.subrange(0, path.len() as int) =~= path);
    if path.len() == 0 {
        assert(inherited);
    } else {
        assert(path.subrange(0, 0) =~= Seq::<int>::empty());
        assert(node_at(node, path.subrange(0, 0)) == node);
        let i = path[0];
        let tail = path.subrange(1, path.len() as int);
        let child = node.nodes@[i];
        let flag = inherited || spec_is_tabbed_or_stacked(node.layout);
        assert(node_at(node, path) == node_at(child, tail));
        assert forall|k: int|
            0 <= k < tail.len() implies (#[trigger] node_at(child, tail.subrange(0, k))).id
            != target_id by {
            lemma_node_at_prefix(node, path, k + 1);
            assert(node_at(node, path.subrange(0, k + 1)).id != target_id);
        }
        if !flag {
            let k = choose|k: int|
                0 <= k < path.len() && spec_is_tabbed_or_stacked(
                    (#[trigger] node_at(node, path.subrange(0, k))).layout,
                );
            assert(k != 0);
            lemma_node_at_prefix(node, path, k);
            assert(spec_is_tabbed_or_stacked(node_at(child, tail.subrange(0, k - 1)).layout));
            assert(tabbed_on_path(child, tail));
        }
        lemma_flagged_path_yields_true(child, target_id, tail, flag);
        assert(spec_has_tabbed_ancestor(node, target_id, inherited));
    }
}

/// If the flag is seeded false and never turned on along the one path that
/// leads to the target, the walk reports false.
proof fn lemma_unflagged_path_yields_false(
    node: WindowNode,
    target_id: u64,
    path: Seq<int>,
    inherited: bool,
)
    requires
        is_only_occurrence(node, target_id, path),
        !inherited,
        !tabbed_on_path(node, path),
    ensures
        !spec_has_tabbed_ancestor(node, target_id, inherited),
    decreases path.len(),
{
    assert(path.subrange(0, path.len() as int) =~= path);
    if path.len() == 0 {
        assert(node.id == target_id);
    } else {
        let empty = Seq::<int>::empty();
        assert(is_valid_path(node, empty) && node_at(node, empty) == node);
        assert(node.id != target_id) by {
            if node.id == target_id {
                assert(empty == path);
            }
        }
        assert(path.subrange(0, 0) =~= empty);
        assert(!spec_is_tabbed_or_stacked(node.layout)) by {
            if spec_is_tabbed_or_stacked(node.layout) {
                assert(spec_is_tabbed_or_stacked(node_at(node, path.subrange(0, 0)).layout));
                assert(tabbed_on_path(node, path));
            }
        }
        let flag = inherited || spec_is_tabbed_or_stacked(node.layout);
        assert(!flag);
        let tail = path.subrange(1, path.len() as int);
        assert forall|i: int|
            0 <= i < node.nodes@.len() implies !spec_has_tabbed_ancestor(
            node.nodes@[i],
            target_id,
            flag,
        ) by {
            let child = node.nodes@[i];
            if i == path[0] {
                assert(node_at(child, tail).id == target_id);
                assert forall|q: Seq<int>|
                    #![trigger is_valid_path(child, q), node_at(child, q)]
                    is_valid_path(child, q) && node_at(child, q).id == target_id implies q
                    == tail by {
                    lemma_cons_path(node, i, q);
                    assert(is_valid_path(node, seq![i] + q));
                    assert(node_at(node, seq![i] + q).id == target_id);
                    assert(seq![i] + q == path);
                    assert((seq![i] + q).subrange(1, (seq![i] + q).len() as int) =~= q);
                }
                assert(!tabbed_on_path(child, tail)) by {
                    if tabbed_on_path(child, tail) {
                        let k = choose|k: int|
                            0 <= k < tail.len() && spec_is_tabbed_or_stacked(
                                (#[trigger] node_at(child, tail.subrange(0, k))).layout,
                            );
                        lemma_node_at_prefix(node, path, k + 1);
                        assert(spec_is_tabbed_or_stacked(
                            node_at(node, path.subrange(0, k + 1)).layout,
                        ));
                        assert(tabbed_on_path(node, path));
                    }
                }
                lemma_unflagged_path_yields_false(child, target_id, tail, flag);
            } else {
                assert(!subtree_contains_id(child, target_id)) by {
                    if subtree_contains_id(child, target_id) {
                        lemma_contains_gives_path(child, target_id);
                        let q = choose|q: Seq<int>|
                            #![trigger is_valid_path(child, q), node_at(child, q)]
                            is_valid_path(child, q) && node_at(child, q).id == target_id;
                        lemma_cons_path(node, i, q);
                        assert(is_valid_path(node, seq![i] + q));
                        assert(node_at(node, seq![i] + q).id == target_id);
                        assert(seq![i] + q == path);
                        assert((seq![i] + q)[0] == path[0]);
                    }
                }
                lemma_absent_target_yields_false(child, target_id, flag);
            }
        }
    }
}

/// A node that lies directly under a tabbed or stacked container has a
/// tabbed ancestor, with a seed of false — and so with any seed.
pub proof fn lemma_child_of_tabbed_has_tabbed_ancestor(
    root: WindowNode,
    target_id: u64,
    path: Seq<int>,
)
    requires
        is_only_occurrence(root, target_id, path),
        path.len() >= 1,
        spec_is_tabbed_or_stacked(node_at(root, path.subrange(0, path.len() - 1)).layout),
    ensures
        spec_has_tabbed_ancestor(root, target_id, false),
{
    assert forall|k: int|
        0 <= k < path.len() implies (#[trigger] node_at(root, path.subrange(0, k))).id
        != target_id by {
        lemma_valid_prefix(root, path, k);
        if node_at(root, path.subrange(0, k)).id == target_id {
            assert(path.subrange(0, k) == path);
            assert(path.subrange(0, k).len() == k);
        }
    }
    assert(tabbed_on_path(root, path));
    lemma_flagged_path_yields_true(root, target_id, path, false);
}

/// With a seed of false and no tabbed or stacked layout at any strict
/// ancestor of the target, the walk reports false.
pub proof fn lemma_no_tabbed_ancestor_yields_false(
    root: WindowNode,
    target_id: u64,
    path: Seq<int>,
)
    requires
        is_only_occurrence(root, target_id, path),
        !tabbed_on_path(root, path),
    ensures
        !spec_has_tabbed_ancestor(root, target_id, false),
{
    lemma_unflagged_path_yields_false(root, target_id, path, false);
}

/// A target that is the root itself hands the seed back: seeded true — the
/// focused container's own layout is tabbed or stacked — the result is true
/// whatever the shape of the tree below.
pub proof fn lemma_tabbed_root_target(root: WindowNode, target_id: u64)
    requires
        root.id == target_id,
    ensures
        spec_has_tabbed_ancestor(root, target_id, true),
{
}

/// The walk is a function of its inputs: two results computed from the same
/// tree, target and seed are equal. `has_tabbed_ancestor` ensures its result
/// equals `spec_has_tabbed_ancestor`, so repeated calls agree.
pub proof fn lemma_has_tabbed_ancestor_deterministic(
    node: WindowNode,
    target_id: u64,
    inherited: bool,
    r1: bool,
    r2: bool,
)
    requires
        r1 == spec_has_tabbed_ancestor(node, target_id, inherited),
        r2 == spec_has_tabbed_ancestor(node, target_id, inherited),
    ensures
        r1 == r2,
{
}

} // verus!
