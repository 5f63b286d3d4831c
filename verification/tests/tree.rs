use ax::ax::tree::{
    apply_role_filter, child_path, filter_to_visible, matches_role_filter, needs_window_fallback,
    parse_tree_path, placeholder_node, shorten_value, TreeNode,
};
use ax::output::tree_fmt::format_tree;

fn node<F>(role: &str, depth: usize, children: Vec<TreeNode<F>>) -> TreeNode<F> {
    TreeNode {
        path: None,
        role: role.to_string(),
        subrole: None,
        title: None,
        value: None,
        description: None,
        identifier: None,
        frame: None,
        url: None,
        children,
        depth,
    }
}

fn roles<F>(n: &TreeNode<F>, out: &mut Vec<String>) {
    out.push(n.role.clone());
    for c in &n.children {
        roles(c, out);
    }
}

#[test]
fn role_filter_matches_ignoring_case() {
    assert!(matches_role_filter("AXButton", "button"));
    assert!(matches_role_filter("AXButton", "XBUT"));
    assert!(!matches_role_filter("AXButton", "text"));
    assert!(matches_role_filter("AXButton", ""));
}

#[test]
fn prune_keeps_matches_and_their_ancestors() {
    let tree: TreeNode<()> = node(
        "AXApplication",
        0,
        vec![
            node("AXWindow", 1, vec![node("AXGroup", 2, vec![node("AXButton", 3, vec![])])]),
            node("AXMenuBar", 1, vec![node("AXMenuBarItem", 2, vec![])]),
        ],
    );
    let pruned = tree.prune_to_filter("button").unwrap();
    let mut r = Vec::new();
    roles(&pruned, &mut r);
    assert_eq!(r, vec!["AXApplication", "AXWindow", "AXGroup", "AXButton"]);
}

#[test]
fn prune_without_match_is_none_and_filter_gives_placeholder() {
    let tree: TreeNode<()> = node("AXApplication", 0, vec![node("AXWindow", 1, vec![])]);
    assert!(node::<()>("AXApplication", 0, vec![]).prune_to_filter("button").is_none());
    let r = apply_role_filter(tree, Some("button"));
    assert_eq!(r.role, "No matches");
    assert!(r.children.is_empty());
    let t2: TreeNode<()> = node("AXApplication", 0, vec![node("AXWindow", 1, vec![])]);
    let r2 = apply_role_filter(t2, None);
    assert_eq!(r2.children.len(), 1);
}

#[test]
fn prune_is_idempotent_on_an_example() {
    let tree: TreeNode<()> = node(
        "AXWindow",
        0,
        vec![node("AXButton", 1, vec![]), node("AXGroup", 1, vec![node("AXButton", 2, vec![])])],
    );
    let once = tree.prune_to_filter("group").unwrap();
    let mut a = Vec::new();
    roles(&once, &mut a);
    let twice = once.prune_to_filter("group").unwrap();
    let mut b = Vec::new();
    roles(&twice, &mut b);
    assert_eq!(a, b);
    assert_eq!(a, vec!["AXWindow", "AXGroup"]);
}

type Rect = (i32, i32, i32, i32);

fn meets(a: &Rect, b: &Rect) -> bool {
    a.0 < b.0 + b.2 && b.0 < a.0 + a.2 && a.1 < b.1 + b.3 && b.1 < a.1 + a.3
}

fn framed(role: &str, depth: usize, f: Option<Rect>, children: Vec<TreeNode<Rect>>) -> TreeNode<Rect> {
    let mut n = node(role, depth, children);
    n.frame = f;
    n
}

#[test]
fn visible_filter_prunes_each_window_to_its_frame() {
    let app = framed(
        "AXApplication",
        0,
        None,
        vec![
            framed(
                "AXWindow",
                1,
                Some((0, 0, 100, 100)),
                vec![
                    framed("AXButton", 2, Some((10, 10, 5, 5)), vec![]),
                    framed("AXButton", 2, Some((500, 500, 5, 5)), vec![]),
                ],
            ),
            framed("AXMenuBar", 1, None, vec![framed("AXMenuBarItem", 2, None, vec![])]),
        ],
    );
    let r = filter_to_visible(app, &meets);
    let mut names = Vec::new();
    roles(&r, &mut names);
    assert_eq!(names, vec!["AXApplication", "AXWindow", "AXButton", "AXMenuBar", "AXMenuBarItem"]);
}

#[test]
fn visible_filter_with_nothing_visible() {
    let win = framed("AXWindow", 0, Some((0, 0, 0, 0)), vec![]);
    let r = filter_to_visible(win, &meets);
    assert_eq!(r.role, "No visible elements");
    let app = framed("AXApplication", 0, None, vec![]);
    assert_eq!(filter_to_visible(app, &meets).role, "No visible elements");
    let p: TreeNode<Rect> = placeholder_node("x");
    assert_eq!(p.role, "x");
}

#[test]
fn paths_round_trip() {
    assert_eq!(child_path("0.2", 1), "0.2.1");
    assert_eq!(parse_tree_path(" 0.2.1 "), Some(vec![2, 1]));
    assert_eq!(parse_tree_path("0"), Some(vec![]));
    assert_eq!(parse_tree_path("1.2"), None);
    assert_eq!(parse_tree_path("0.x"), None);
    assert_eq!(parse_tree_path("   "), None);
    assert_eq!(parse_tree_path(&child_path(&child_path("0", 3), 14)), Some(vec![3, 14]));
}

#[test]
fn long_values_are_shortened() {
    assert_eq!(shorten_value("".to_string()), None);
    assert_eq!(shorten_value("<AXUIElement AXButton>".to_string()), None);
    assert_eq!(shorten_value("hello".to_string()), Some("hello".to_string()));
    let long: String = "é".repeat(51);
    let short = shorten_value(long).unwrap();
    assert_eq!(short, format!("{}...", "é".repeat(47)));
    let exact: String = "a".repeat(50);
    assert_eq!(shorten_value(exact.clone()), Some(exact));
}

#[test]
fn window_fallback_only_for_childless_applications() {
    assert!(needs_window_fallback(0, "AXApplication"));
    assert!(!needs_window_fallback(2, "AXApplication"));
    assert!(!needs_window_fallback(0, "AXWindow"));
}

#[test]
fn tree_plain_output() {
    let mut button: TreeNode<String> = node("AXButton", 2, vec![]);
    button.title = Some("OK".to_string());
    button.value = Some("1".to_string());
    button.frame = Some("10,20 30x40".to_string());
    let mut field: TreeNode<String> = node("AXTextField", 2, vec![]);
    field.description = Some("search".to_string());
    field.identifier = Some("q".to_string());
    field.url = Some("https://x".to_string());
    let mut win: TreeNode<String> = node("AXWindow", 1, vec![button, field]);
    win.path = Some("0.0".to_string());
    win.subrole = Some("AXStandardWindow".to_string());
    let menu: TreeNode<String> = node("AXMenuBar", 1, vec![node("AXMenuBarItem", 2, vec![])]);
    let root: TreeNode<String> = node("AXApplication", 0, vec![win, menu]);
    assert_eq!(
        format_tree(&root, false),
        "(AXApplication)\n\
         ├── [0.0] (AXWindow) [AXStandardWindow]\n\
         │   ├── \"OK\" (AXButton) [value: 1] @(10,20 30x40)\n\
         │   └── (AXTextField) — search #q -> https://x\n\
         └── (AXMenuBar)\n\
         \x20   └── (AXMenuBarItem)\n"
    );
}

#[test]
fn tree_with_colors_keeps_structure() {
    let root: TreeNode<String> = node("AXApplication", 0, vec![node("AXWindow", 1, vec![])]);
    let out = format_tree(&root, true);
    assert_eq!(out.lines().count(), 2);
    assert!(out.contains("AXWindow"));
    assert!(out.lines().nth(1).unwrap().starts_with("└── "));
}

use ax::ax::tree::{build_tree, RawElement};

fn raw(role: &str, children: Vec<RawElement<Rect>>) -> RawElement<Rect> {
    RawElement {
        role: Some(role.to_string()),
        subrole: None,
        title: None,
        value: None,
        description: None,
        identifier: None,
        frame: Some((0, 0, 10, 10)),
        url: Some("https://example.com".to_string()),
        children,
    }
}

#[test]
fn built_tree_has_paths_depths_and_cutoff() {
    let mut leaf = raw("AXButton", vec![raw("AXImage", vec![])]);
    leaf.title = Some("".to_string());
    leaf.value = Some("v".repeat(60));
    leaf.description = Some("<AXValue>".to_string());
    leaf.identifier = Some("ok".to_string());
    let mut unnamed = raw("x", vec![]);
    unnamed.role = None;
    let root = raw("AXApplication", vec![raw("AXWindow", vec![leaf]), unnamed]);
    let t = build_tree(root, 2, None, false, true);
    assert_eq!(t.path.as_deref(), Some("0"));
    assert_eq!(t.depth, 0);
    assert_eq!(t.frame, None);
    assert_eq!(t.url, None);
    assert_eq!(t.children.len(), 2);
    let win = &t.children[0];
    assert_eq!(win.path.as_deref(), Some("0.0"));
    assert_eq!(win.depth, 1);
    let button = &win.children[0];
    assert_eq!(button.path.as_deref(), Some("0.0.0"));
    assert_eq!(button.depth, 2);
    assert!(button.children.is_empty());
    assert_eq!(button.title, None);
    assert_eq!(button.value, Some(format!("{}...", "v".repeat(47))));
    assert_eq!(button.description, None);
    assert_eq!(button.identifier.as_deref(), Some("ok"));
    assert_eq!(t.children[1].role, "Unknown");
    assert_eq!(t.children[1].path.as_deref(), Some("0.1"));
}

#[test]
fn built_tree_with_extras_and_filter() {
    let root = raw("AXApplication", vec![raw("AXWindow", vec![raw("AXButton", vec![])]), raw("AXMenuBar", vec![])]);
    let t = build_tree(root, 10, Some("button"), true, false);
    let mut names = Vec::new();
    roles(&t, &mut names);
    assert_eq!(names, vec!["AXApplication", "AXWindow", "AXButton"]);
    assert_eq!(t.path, None);
    assert_eq!(t.frame, Some((0, 0, 10, 10)));
    assert_eq!(t.url.as_deref(), Some("https://example.com"));
    let none = build_tree(raw("AXApplication", vec![]), 10, Some("slider"), true, true);
    assert_eq!(none.role, "No matches");
    let shallow = build_tree(raw("AXApplication", vec![raw("AXWindow", vec![])]), 0, None, false, false);
    assert!(shallow.children.is_empty());
}
