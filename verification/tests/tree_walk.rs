use autotile::{has_tabbed_ancestor, Layout, Rect, WindowNode};

fn node(id: u64, layout: Layout, children: Vec<WindowNode>) -> WindowNode {
    WindowNode {
        id,
        name: None,
        layout,
        rect: Rect { x: 0, y: 0, width: 100, height: 100 },
        window_rect: Rect { x: 0, y: 0, width: 100, height: 100 },
        nodes: children,
    }
}

#[test]
fn child_of_tabbed_parent_is_tabbed() {
    let root = node(1, Layout::Tabbed, vec![node(2, Layout::Normal, vec![])]);
    assert!(has_tabbed_ancestor(&root, 2, false));
}

#[test]
fn child_of_stacked_parent_is_tabbed() {
    let root = node(1, Layout::Stacked, vec![node(2, Layout::Normal, vec![])]);
    assert!(has_tabbed_ancestor(&root, 2, false));
}

#[test]
fn no_tabbed_ancestor_yields_false() {
    let root = node(
        1,
        Layout::SplitHorizontal,
        vec![node(2, Layout::SplitVertical, vec![node(3, Layout::Normal, vec![])])],
    );
    assert!(!has_tabbed_ancestor(&root, 3, false));
}

#[test]
fn tabbed_grandparent_counts_as_ancestor() {
    let root = node(
        1,
        Layout::Tabbed,
        vec![node(2, Layout::SplitHorizontal, vec![node(3, Layout::Normal, vec![])])],
    );
    assert!(has_tabbed_ancestor(&root, 3, false));
}

#[test]
fn tabbed_sibling_subtree_does_not_count() {
    let root = node(
        1,
        Layout::SplitHorizontal,
        vec![
            node(2, Layout::Tabbed, vec![node(4, Layout::Normal, vec![])]),
            node(3, Layout::Normal, vec![node(5, Layout::Normal, vec![])]),
        ],
    );
    assert!(!has_tabbed_ancestor(&root, 5, false));
    assert!(has_tabbed_ancestor(&root, 4, false));
}

#[test]
fn seed_decides_at_the_root() {
    let root = node(7, Layout::SplitVertical, vec![node(8, Layout::Normal, vec![])]);
    assert!(has_tabbed_ancestor(&root, 7, true));
    assert!(!has_tabbed_ancestor(&root, 7, false));
}

#[test]
fn seed_reaches_a_deeper_target() {
    let root = node(1, Layout::Normal, vec![node(2, Layout::Normal, vec![])]);
    assert!(has_tabbed_ancestor(&root, 2, true));
    assert!(!has_tabbed_ancestor(&root, 2, false));
}

#[test]
fn absent_target_yields_false() {
    let root = node(1, Layout::Tabbed, vec![node(2, Layout::Stacked, vec![])]);
    assert!(!has_tabbed_ancestor(&root, 99, false));
    assert!(!has_tabbed_ancestor(&root, 99, true));
}

#[test]
fn walk_is_deterministic() {
    let root = node(
        1,
        Layout::Stacked,
        vec![node(2, Layout::Normal, vec![]), node(3, Layout::Tabbed, vec![])],
    );
    let first = has_tabbed_ancestor(&root, 3, false);
    for _ in 0..5 {
        assert_eq!(has_tabbed_ancestor(&root, 3, false), first);
    }
}
