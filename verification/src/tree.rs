//! The window manager's layout tree and the tabbed-ancestry walk.
//!
//! A `WindowNode` is one container of the layout tree; `has_tabbed_ancestor`
//! walks a tree snapshot and reports whether the node with a given id sits
//! under a tabbed or stacked container.

use vstd::prelude::*;

verus! {

/// Layout kind of a container in the window manager's tree.
#[derive(Clone, Copy, PartialEq, Eq, Structural, Debug)]
pub enum Layout {
    Normal,
    Tabbed,
    Stacked,
    SplitHorizontal,
    SplitVertical,
    Other,
}

/// A rectangle in absolute pixel coordinates.
#[derive(Clone, Copy, PartialEq, Eq, Structural, Debug)]
pub struct Rect {
    pub x: i64,
    pub y: i64,
    pub width: u64,
    pub height: u64,
}

/// One node of the window manager's layout tree. The parent exclusively owns
/// its children, so a tree snapshot has no back edges.
pub struct WindowNode {
    /// Unique id of the container within one tree snapshot.
    pub id: u64,
    /// Display name or class of the window, when the node carries one.
    pub name: Option<String>,
    /// Layout kind of this container.
    pub layout: Layout,
    /// Absolute rectangle of the container.
    pub rect: Rect,
    /// Rectangle of the window content, possibly smaller than `rect`.
    pub window_rect: Rect,
    /// Child containers, in order.
    pub nodes: Vec<WindowNode>,
}

/// True iff the layout overlaps its children: tabbed or stacked.
pub open spec fn spec_is_tabbed_or_stacked(l: Layout) -> bool {
    l == Layout::Tabbed || l == Layout::Stacked
}

/// Whether `l` is a tabbed or stacked layout.
pub fn is_tabbed_or_stacked(l: Layout) -> (r: bool)
    ensures
        r == spec_is_tabbed_or_stacked(l),
{
    matches!(l, Layout::Tabbed | Layout::Stacked)
}

/// The tabbed-ancestry walk: at the node with id `target_id` the inherited
/// flag is returned; descending into a child, the flag becomes true as soon
/// as the node just left behind is tabbed or stacked. A tree without the
/// target yields false.
pub open spec fn spec_has_tabbed_ancestor(node: WindowNode, target_id: u64, inherited: bool) -> bool
    decreases node,
{
    if node.id == target_id {
        inherited
    } else {
        exists|i: int|
            0 <= i < node.nodes@.len() && spec_has_tabbed_ancestor(
                node.nodes@[i],
                target_id,
                inherited || spec_is_tabbed_or_stacked(node.layout),
            )
    }
}

/// Depth-first walk of `node` that reports whether the node with id
/// `target_id` lies under a tabbed or stacked container. `inherited` seeds
/// the flag for the root itself: pass the tabbed-ness of the focused
/// container, so that a focused container that is itself the root is judged
/// by its own layout.
pub fn has_tabbed_ancestor(node: &WindowNode, target_id: u64, inherited: bool) -> (r: bool)
    ensures
        r == spec_has_tabbed_ancestor(*node, target_id, inherited),
    decreases *node,
{
    if node.id == target_id {
        inherited
    } else {
        let child_flag = inherited || is_tabbed_or_stacked(node.layout);
        let mut i: usize = 0;
        while i < node.nodes.len()
            invariant
                0 <= i <= node.nodes@.len(),
                node.id != target_id,
                child_flag == (inherited || spec_is_tabbed_or_stacked(node.layout)),
                forall|j: int|
                    0 <= j < i ==> !spec_has_tabbed_ancestor(node.nodes@[j], target_id, child_flag),
            decreases node.nodes@.len() - i,
        {
            if has_tabbed_ancestor(&node.nodes[i], target_id, child_flag) {
                return true;
            }
            i = i + 1;
        }
        false
    }
}

} // verus!
