use autotile::{choose_split, is_terminal_like, Layout, Rect, SplitCommand, WindowNode};

fn leaf(name: Option<&str>, rect: Rect, window_rect: Rect) -> WindowNode {
    WindowNode {
        id: 1,
        name: name.map(|s| s.to_owned()),
        layout: Layout::Normal,
        rect,
        window_rect,
        nodes: Vec::new(),
    }
}

fn rect(x: i64, width: u64, height: u64) -> Rect {
    Rect { x, y: 0, width, height }
}

#[test]
fn terminal_flush_left_splits_horizontal() {
    let n = leaf(Some("Alacritty"), rect(0, 800, 600), rect(0, 780, 580));
    assert_eq!(choose_split(&n), SplitCommand::Horizontal);
    assert_eq!(choose_split(&n).text(), "split horizontal");
}

#[test]
fn terminal_off_left_edge_splits_vertical() {
    let n = leaf(Some("Alacritty"), rect(500, 800, 600), rect(0, 780, 580));
    assert_eq!(choose_split(&n), SplitCommand::Vertical);
    assert_eq!(choose_split(&n).text(), "split vertical");
}

#[test]
fn xterm_is_terminal_like_too() {
    let flush = leaf(Some("xterm"), rect(0, 800, 600), rect(0, 100, 900));
    assert_eq!(choose_split(&flush), SplitCommand::Horizontal);
    let shifted = leaf(Some("xterm"), rect(120, 800, 600), rect(0, 900, 100));
    assert_eq!(choose_split(&shifted), SplitCommand::Vertical);
}

#[test]
fn wide_window_splits_horizontal() {
    let n = leaf(Some("Firefox"), rect(0, 1000, 500), rect(0, 1000, 500));
    assert!(!is_terminal_like(&n));
    assert_eq!(choose_split(&n), SplitCommand::Horizontal);
    assert_eq!(choose_split(&n).text(), "split horizontal");
}

#[test]
fn tall_window_splits_vertical() {
    let n = leaf(Some("Firefox"), rect(0, 500, 1000), rect(0, 500, 1000));
    assert_eq!(choose_split(&n), SplitCommand::Vertical);
    assert_eq!(choose_split(&n).text(), "split vertical");
}

#[test]
fn square_window_ties_to_vertical() {
    let n = leaf(Some("Firefox"), rect(0, 640, 640), rect(0, 640, 640));
    assert_eq!(choose_split(&n), SplitCommand::Vertical);
}

#[test]
fn nameless_window_uses_content_rect() {
    let n = leaf(None, rect(0, 300, 200), rect(0, 300, 200));
    assert!(!is_terminal_like(&n));
    assert_eq!(choose_split(&n), SplitCommand::Horizontal);
}

#[test]
fn terminal_name_must_match_exactly() {
    let n = leaf(Some("alacritty"), rect(0, 300, 200), rect(0, 200, 300));
    assert!(!is_terminal_like(&n));
    assert_eq!(choose_split(&n), SplitCommand::Vertical);
}

#[test]
fn choose_split_is_deterministic() {
    let n = leaf(Some("Firefox"), rect(7, 320, 200), rect(0, 310, 190));
    let first = choose_split(&n);
    for _ in 0..5 {
        assert_eq!(choose_split(&n), first);
    }
}
