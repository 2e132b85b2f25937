use wmdash::snapshot::Snapshot;
use wmdash::snapshot::get_focused_window;
use wmdash::snapshot::get_workspace_window;
use wmdash::snapshot::list_windows;
use wmdash::snapshot::list_workspace_windows;
use wmdash::snapshot::list_workspaces_and_window_names;
use wmdash::snapshot::list_workspaces_and_windows;
use wmdash::window::FloatingState;
use wmdash::window::Window;
use wmdash::workspace::Workspace;

fn leaf(name: &str) -> Window {
    Window {
        name: Some(name.to_string()),
        id: 0,
        window: None,
        type_: Some("con".to_string()),
        nodes: Vec::new(),
        focused: false,
        class: None,
        floating: FloatingState::Attached,
        scratchpad_state: None,
    }
}

fn leaf_id(name: &str, id: u64) -> Window {
    Window { id, ..leaf(name) }
}

fn container(nodes: Vec<Window>) -> Window {
    Window {
        name: None,
        id: 0,
        window: None,
        type_: Some("con".to_string()),
        nodes,
        focused: false,
        class: None,
        floating: FloatingState::Attached,
        scratchpad_state: None,
    }
}

fn named_container(name: &str, nodes: Vec<Window>) -> Window {
    Window {
        name: Some(name.to_string()),
        ..container(nodes)
    }
}

fn names_of(windows: &[Window]) -> Vec<String> {
    windows.iter().filter_map(|w| w.name.clone()).collect()
}

#[test]
fn flatten_is_preorder_and_counts_named() {
    // [root [a [unnamed [b]] c]]: pre-order visits root, a, unnamed, b, c.
    let tree = named_container(
        "root",
        vec![
            named_container("a", vec![container(vec![leaf("b")])]),
            leaf("c"),
        ],
    );
    let flat = tree.flatten();
    assert_eq!(flat.len(), 5);
    let named: Vec<&Window> = flat.iter().filter(|w| w.name.is_some()).collect();
    // Flattening is at least as long as the count of named nodes, and
    // filtering by "has a name" yields the named nodes in pre-order.
    assert!(flat.len() >= named.len());
    assert_eq!(names_of(&flat), vec!["root", "a", "b", "c"]);
}

#[test]
fn collect_names_skips_containers() {
    // A container with children [leaf("a"), container([leaf("b")])]
    // collects ["a", "b"] and never an intermediate container's name.
    let tree = named_container(
        "outer",
        vec![leaf("a"), named_container("mid", vec![leaf("b")])],
    );
    assert_eq!(tree.node_names(), vec!["a", "b"]);
}

#[test]
fn collect_names_leaf_contributes_own_name() {
    assert_eq!(leaf("solo").node_names(), vec!["solo"]);
    assert_eq!(container(vec![]).node_names(), Vec::<String>::new());
}

#[test]
fn name_str_fixed_width_columns() {
    let mut w = leaf("Mozilla");
    w.class = Some("Firefox".to_string());
    assert_eq!(
        w.name_str(),
        format!("[{:15}] {:20} <{}>", "Firefox", "Mozilla", "No Scratchpad")
    );
    let mut s = leaf("term");
    s.scratchpad_state = Some("fresh".to_string());
    assert_eq!(
        s.name_str(),
        format!("[{:15}] {:20} <{}>", "", "term", "fresh")
    );
    // Wider content than the column is not truncated.
    let wide = leaf("a-window-name-wider-than-twenty-cols");
    assert_eq!(
        wide.name_str(),
        format!(
            "[{:15}] {:20} <{}>",
            "",
            "a-window-name-wider-than-twenty-cols",
            "No Scratchpad"
        )
    );
}

#[test]
fn is_floating_only_for_user_floated() {
    let mut w = leaf("w");
    assert!(!w.is_floating());
    w.floating = FloatingState::FloatingOn;
    assert!(w.is_floating());
    w.floating = FloatingState::FloatingOff;
    assert!(!w.is_floating());
}

#[test]
fn is_container_classification() {
    let mut w = leaf("w");
    assert!(!w.is_container());
    w.name = Some("content".to_string());
    assert!(w.is_container());
    w.name = None;
    assert!(w.is_container());
    w.name = Some("w".to_string());
    w.type_ = Some("workspace".to_string());
    assert!(w.is_container());
    w.type_ = None;
    assert!(w.is_container());
}

#[test]
fn focus_and_kill_address_the_container_id() {
    let w = leaf_id("w", 7);
    assert_eq!(w.focus_window(), wmdash::effect::Effect::Focus(7));
    assert_eq!(w.kill(), wmdash::effect::Effect::Kill(7));
}

#[test]
fn move_window_command_carries_target() {
    let cmd = wmdash::effect::move_window_to_workspace(9, &"3".to_string());
    assert_eq!(
        cmd,
        wmdash::effect::Effect::MoveToWorkspace(9, "3".to_string())
    );
}

#[test]
fn list_windows_concatenates() {
    let attached = vec![leaf("a"), leaf("b")];
    let floating = vec![leaf("f")];
    let all = list_windows(&attached, &floating);
    assert_eq!(names_of(&all), vec!["a", "b", "f"]);
}

#[test]
fn workspace_window_lookup() {
    let windows = vec![
        named_container("1", vec![leaf("x")]),
        named_container("2", vec![leaf("y"), leaf("z")]),
    ];
    let found = get_workspace_window(&windows, &"2".to_string()).unwrap();
    assert_eq!(found.name, Some("2".to_string()));
    assert!(get_workspace_window(&windows, &"9".to_string()).is_none());
    let children = list_workspace_windows(&windows, &"2".to_string());
    assert_eq!(names_of(&children), vec!["y", "z"]);
    assert!(list_workspace_windows(&windows, &"9".to_string()).is_empty());
}

#[test]
fn focused_window_is_first_focused() {
    let mut b = leaf("b");
    b.focused = true;
    let windows = vec![leaf("a"), b, leaf("c")];
    assert_eq!(
        get_focused_window(&windows).unwrap().name,
        Some("b".to_string())
    );
    assert!(get_focused_window(&vec![leaf("a")]).is_none());
}

#[test]
fn list_ws_map() {
    let windows = vec![
        named_container("1", vec![leaf("x"), leaf("y")]),
        named_container("2", vec![]),
    ];
    let workspaces = vec![
        Workspace { id: 10, name: "1".to_string() },
        Workspace { id: 11, name: "2".to_string() },
    ];
    let map = list_workspaces_and_windows(&windows, &workspaces);
    println!("{:?}", map);
    assert_eq!(map.len(), 2);
    assert_eq!(map[0].0, "1");
    assert_eq!(names_of(&map[0].1), vec!["x", "y"]);
    assert_eq!(map[1].0, "2");
    assert!(map[1].1.is_empty());
}

#[test]
fn workspace_name_table() {
    let windows = vec![named_container(
        "1",
        vec![leaf("x"), named_container("mid", vec![leaf("y")])],
    )];
    let workspaces = vec![Workspace { id: 10, name: "1".to_string() }];
    let names = list_workspaces_and_window_names(&windows, &workspaces);
    assert_eq!(names.len(), 1);
    assert_eq!(names[0].0, "1");
    assert_eq!(names[0].1, vec!["x", "y"]);
}

#[test]
fn snapshot_derives_all_views_from_one_round() {
    let mut focused = leaf("x");
    focused.focused = true;
    // The attached list arrives already expanded, the way the tree
    // query reports it: the workspace container first, its nodes after.
    let attached = vec![named_container("1", vec![focused.clone()]), focused];
    let floating = vec![{
        let mut f = leaf("float");
        f.floating = FloatingState::FloatingOn;
        f
    }];
    let workspaces = vec![Workspace { id: 1, name: "1".to_string() }];
    let snap = Snapshot::new(attached, floating, workspaces);
    assert_eq!(snap.windows.len(), 3);
    assert_eq!(snap.attached_windows.len(), 2);
    assert_eq!(snap.floating_windows.len(), 1);
    assert_eq!(snap.fcsd_window.as_ref().unwrap().name, Some("x".to_string()));
    assert_eq!(snap.ws_map.len(), 1);
    assert_eq!(names_of(&snap.ws_map[0].1), vec!["x"]);
    assert_eq!(snap.ws_map_names[0].1, vec!["x"]);
}
