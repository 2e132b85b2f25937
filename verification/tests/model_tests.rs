use wmdash::effect::Effect;
use wmdash::model::KeyPress;
use wmdash::model::Message;
use wmdash::model::Model;
use wmdash::model::RunningState;
use wmdash::nav::HomeLayout;
use wmdash::nav::HomeLayoutSelectedWindow;
use wmdash::nav::decrement_index;
use wmdash::nav::increment_index;
use wmdash::snapshot::Snapshot;
use wmdash::window::FloatingState;
use wmdash::window::Window;
use wmdash::workspace::Workspace;

fn leaf_id(name: &str, id: u64) -> Window {
    Window {
        name: Some(name.to_string()),
        id,
        window: None,
        type_: Some("con".to_string()),
        nodes: Vec::new(),
        focused: false,
        class: None,
        floating: FloatingState::Attached,
        scratchpad_state: None,
    }
}

fn ws_window(name: &str, nodes: Vec<Window>) -> Window {
    Window {
        name: Some(name.to_string()),
        id: 0,
        window: None,
        type_: Some("workspace".to_string()),
        nodes,
        focused: false,
        class: None,
        floating: FloatingState::Attached,
        scratchpad_state: None,
    }
}

fn workspace(id: u64, name: &str) -> Workspace {
    Workspace { id, name: name.to_string() }
}

/// Three workspaces "1", "2", "3", with the given windows attached.
fn three_ws_snapshot(w1: Vec<Window>, w2: Vec<Window>, w3: Vec<Window>) -> Snapshot {
    Snapshot::new(
        vec![ws_window("1", w1), ws_window("2", w2), ws_window("3", w3)],
        Vec::new(),
        vec![workspace(10, "1"), workspace(11, "2"), workspace(12, "3")],
    )
}

fn fresh_model() -> Model {
    Model::new(
        three_ws_snapshot(Vec::new(), Vec::new(), Vec::new()),
        0,
    )
}

#[test]
fn index_wrap_cycles() {
    // Wrap-increment and wrap-decrement are inverse cyclic moves: for
    // a five-entry collection, five increments return to the start,
    // and four increments followed by four decrements do too.
    for start in 0..5 {
        let mut i = start;
        for _ in 0..5 {
            i = increment_index(i, 5);
        }
        assert_eq!(i, start);
        let mut j = start;
        for _ in 0..4 {
            j = increment_index(j, 5);
        }
        for _ in 0..4 {
            j = decrement_index(j, 5);
        }
        assert_eq!(j, start);
        assert_eq!(decrement_index(increment_index(start, 5), 5), start);
    }
}

#[test]
fn index_moves_guard_empty_collections() {
    assert_eq!(increment_index(3, 0), 3);
    assert_eq!(decrement_index(3, 0), 3);
    assert_eq!(increment_index(0, 1), 0);
    assert_eq!(decrement_index(0, 1), 0);
}

#[test]
fn pane_grid_is_closed() {
    // From Workspaces, right/down/left/up walks the whole 2x2 grid
    // and comes back.
    let mut hl = HomeLayout::new();
    assert_eq!(hl.selected, HomeLayoutSelectedWindow::Workspaces);
    hl.move_right();
    assert_eq!(hl.selected, HomeLayoutSelectedWindow::Attached);
    hl.move_down();
    assert_eq!(hl.selected, HomeLayoutSelectedWindow::Floating);
    hl.move_left();
    assert_eq!(hl.selected, HomeLayoutSelectedWindow::Focused);
    hl.move_up();
    assert_eq!(hl.selected, HomeLayoutSelectedWindow::Workspaces);
    // A move without a grid edge stays put.
    hl.move_up();
    assert_eq!(hl.selected, HomeLayoutSelectedWindow::Workspaces);
    hl.move_left();
    assert_eq!(hl.selected, HomeLayoutSelectedWindow::Workspaces);
}

#[test]
fn key_bindings() {
    let m = fresh_model();
    assert_eq!(m.handle_key(KeyPress::Char('q')), Some(Message::Quit));
    assert_eq!(m.handle_key(KeyPress::Char('s')), Some(Message::ShowKey));
    assert_eq!(m.handle_key(KeyPress::Char('r')), Some(Message::RefreshModel));
    assert_eq!(m.handle_key(KeyPress::Char('H')), Some(Message::MoveLeftMenu));
    assert_eq!(m.handle_key(KeyPress::Char('J')), Some(Message::MoveDownMenu));
    assert_eq!(m.handle_key(KeyPress::Char('K')), Some(Message::MoveUpMenu));
    assert_eq!(m.handle_key(KeyPress::Char('L')), Some(Message::MoveRightMenu));
    assert_eq!(m.handle_key(KeyPress::Char('h')), Some(Message::MoveLeft));
    assert_eq!(m.handle_key(KeyPress::Char('j')), Some(Message::MoveDown));
    assert_eq!(m.handle_key(KeyPress::Char('k')), Some(Message::MoveUp));
    assert_eq!(m.handle_key(KeyPress::Char('l')), Some(Message::MoveRight));
    assert_eq!(m.handle_key(KeyPress::Char('a')), Some(Message::Add));
    assert_eq!(m.handle_key(KeyPress::Char('c')), Some(Message::Consolidate));
    assert_eq!(m.handle_key(KeyPress::Char('d')), Some(Message::Delete));
    assert_eq!(m.handle_key(KeyPress::Enter), Some(Message::GoTo));
    assert_eq!(m.handle_key(KeyPress::Char('x')), None);
    assert_eq!(m.handle_key(KeyPress::Other), None);
}

#[test]
fn quit_sets_done() {
    let mut m = fresh_model();
    assert_eq!(m.running_state, RunningState::Running);
    let (next, effects) = m.update(Message::Quit, 1);
    assert!(next.is_none());
    assert!(effects.is_empty());
    assert_eq!(m.running_state, RunningState::Done);
}

#[test]
fn refresh_message_asks_for_snapshot() {
    let mut m = fresh_model();
    let (next, effects) = m.update(Message::RefreshModel, 1);
    assert!(next.is_none());
    assert_eq!(effects, vec![Effect::Refresh]);
}

#[test]
fn workspace_index_wraps_through_updates() {
    // Three workspaces, index 0: MoveUp wrap-decrements to 2; MoveDown
    // twice from 2 gives 1.
    let mut m = fresh_model();
    assert_eq!(m.home_layout.workspaces_index, 0);
    m.update(Message::MoveUp, 1);
    assert_eq!(m.home_layout.workspaces_index, 2);
    m.update(Message::MoveDown, 2);
    m.update(Message::MoveDown, 3);
    assert_eq!(m.home_layout.workspaces_index, 1);
}

#[test]
fn index_moves_are_no_ops_on_empty_collections() {
    let mut m = Model::new(Snapshot::new(Vec::new(), Vec::new(), Vec::new()), 0);
    m.update(Message::MoveUp, 1);
    assert_eq!(m.home_layout.workspaces_index, 0);
    m.update(Message::MoveDown, 2);
    assert_eq!(m.home_layout.workspaces_index, 0);
    assert!(m.selected_workspace().is_none());
    assert!(m.selected_attached_window().is_none());
    assert_eq!(m.n_attached_windows(), 0);
}

#[test]
fn attached_index_wraps_within_selected_workspace() {
    let mut m = Model::new(
        three_ws_snapshot(
            vec![leaf_id("a", 1), leaf_id("b", 2)],
            Vec::new(),
            Vec::new(),
        ),
        0,
    );
    m.home_layout.selected = HomeLayoutSelectedWindow::Attached;
    assert_eq!(m.n_attached_windows(), 2);
    m.update(Message::MoveDown, 1);
    assert_eq!(m.home_layout.attached_windows_index, 1);
    m.update(Message::MoveDown, 2);
    assert_eq!(m.home_layout.attached_windows_index, 0);
    m.update(Message::MoveUp, 3);
    assert_eq!(m.home_layout.attached_windows_index, 1);
}

#[test]
fn pane_moves_through_updates() {
    let mut m = fresh_model();
    m.update(Message::MoveRightMenu, 1);
    assert_eq!(m.home_layout.selected, HomeLayoutSelectedWindow::Attached);
    // Plain left/right also move between panes, never an index.
    m.update(Message::MoveLeft, 2);
    assert_eq!(m.home_layout.selected, HomeLayoutSelectedWindow::Workspaces);
    m.update(Message::MoveDownMenu, 3);
    assert_eq!(m.home_layout.selected, HomeLayoutSelectedWindow::Focused);
    m.update(Message::MoveUpMenu, 4);
    assert_eq!(m.home_layout.selected, HomeLayoutSelectedWindow::Workspaces);
}

#[test]
fn refresh_leaves_navigation_state_unchanged() {
    // Refreshing twice in a row without input changes nothing of the
    // navigation state: selected pane and both indices survive.
    let mut m = Model::new(
        three_ws_snapshot(vec![leaf_id("a", 1)], Vec::new(), Vec::new()),
        0,
    );
    m.home_layout = HomeLayout {
        selected: HomeLayoutSelectedWindow::Attached,
        workspaces_index: 2,
        attached_windows_index: 1,
    };
    let nav_before = m.home_layout;
    m.refresh(three_ws_snapshot(Vec::new(), Vec::new(), Vec::new()), 5);
    assert_eq!(m.home_layout, nav_before);
    assert_eq!(m.status_msg, "Refreshed");
    m.refresh(three_ws_snapshot(Vec::new(), Vec::new(), Vec::new()), 9);
    assert_eq!(m.home_layout, nav_before);
    assert_eq!(m.status_msg, "Refreshed");
    assert_eq!(m.status_timestamp, 9);
}

#[test]
fn add_creates_successor_workspace() {
    let mut m = fresh_model();
    m.update(Message::MoveDown, 1); // workspace index 1
    let (_, effects) = m.update(Message::Add, 2);
    assert_eq!(
        effects,
        vec![
            Effect::SwitchToWorkspace("2".to_string()),
            Effect::Refresh,
            Effect::ShowScratchpad,
        ]
    );
    // Outside the Workspaces pane, Add does nothing.
    m.update(Message::MoveRightMenu, 3);
    let (_, effects) = m.update(Message::Add, 4);
    assert!(effects.is_empty());
}

#[test]
fn consolidate_moves_other_workspaces_windows() {
    // Workspaces {"1": [A, B], "2": [C], "3": []} with "1" selected:
    // only C's subtree is moved, targeting "1"; nothing moves out of
    // "1" itself; the workspace highlight returns to the front.
    let c = Window {
        nodes: vec![leaf_id("c-child", 31)],
        ..leaf_id("C", 30)
    };
    let mut m = Model::new(
        three_ws_snapshot(
            vec![leaf_id("A", 20), leaf_id("B", 21)],
            vec![c],
            Vec::new(),
        ),
        0,
    );
    m.home_layout.workspaces_index = 0;
    let (_, effects) = m.update(Message::Consolidate, 1);
    let moves: Vec<&Effect> = effects
        .iter()
        .filter(|e| matches!(e, Effect::MoveToWorkspace(_, _)))
        .collect();
    assert_eq!(moves.len(), 2);
    assert_eq!(*moves[0], Effect::MoveToWorkspace(30, "1".to_string()));
    assert_eq!(*moves[1], Effect::MoveToWorkspace(31, "1".to_string()));
    assert_eq!(*effects.last().unwrap(), Effect::Refresh);
    assert_eq!(m.home_layout.workspaces_index, 0);
}

#[test]
fn consolidate_resets_workspace_index() {
    let mut m = Model::new(
        three_ws_snapshot(Vec::new(), vec![leaf_id("C", 30)], Vec::new()),
        0,
    );
    m.home_layout.workspaces_index = 2; // target "3"
    let (_, effects) = m.update(Message::Consolidate, 1);
    assert_eq!(
        effects,
        vec![Effect::MoveToWorkspace(30, "3".to_string()), Effect::Refresh]
    );
    assert_eq!(m.home_layout.workspaces_index, 0);
}

#[test]
fn goto_workspace_switches_and_shows_scratchpad() {
    let mut m = fresh_model();
    m.update(Message::MoveDown, 1); // select workspace "2"
    let (_, effects) = m.update(Message::GoTo, 2);
    assert_eq!(
        effects,
        vec![
            Effect::SwitchToWorkspace("2".to_string()),
            Effect::ShowScratchpad,
        ]
    );
}

#[test]
fn goto_attached_focuses_and_reports() {
    let mut m = Model::new(
        three_ws_snapshot(
            vec![leaf_id("a", 5), leaf_id("b", 6)],
            Vec::new(),
            Vec::new(),
        ),
        0,
    );
    m.home_layout.selected = HomeLayoutSelectedWindow::Attached;
    m.home_layout.attached_windows_index = 1;
    let (_, effects) = m.update(Message::GoTo, 7);
    assert_eq!(effects, vec![Effect::Focus(6), Effect::ShowScratchpad]);
    let expected_line = format!("[{:15}] {:20} <{}>", "", "b", "No Scratchpad");
    assert_eq!(m.status_msg, format!("Focused: {}", expected_line));
    assert_eq!(m.status_timestamp, 7);
}

#[test]
fn delete_attached_kills_then_refreshes() {
    // Delete on the Attached pane with window id 42 highlighted issues
    // exactly one kill addressed to container 42, followed by exactly
    // one refresh.
    let mut m = Model::new(
        three_ws_snapshot(vec![leaf_id("victim", 42)], Vec::new(), Vec::new()),
        0,
    );
    m.home_layout.selected = HomeLayoutSelectedWindow::Attached;
    let (_, effects) = m.update(Message::Delete, 1);
    let kills: Vec<usize> = effects
        .iter()
        .enumerate()
        .filter(|(_, e)| matches!(e, Effect::Kill(_)))
        .map(|(i, _)| i)
        .collect();
    let refreshes: Vec<usize> = effects
        .iter()
        .enumerate()
        .filter(|(_, e)| matches!(e, Effect::Refresh))
        .map(|(i, _)| i)
        .collect();
    assert_eq!(kills, vec![0]);
    assert_eq!(effects[0], Effect::Kill(42));
    assert_eq!(refreshes, vec![1]);
    let expected_line = format!("[{:15}] {:20} <{}>", "", "victim", "No Scratchpad");
    assert_eq!(
        effects[2],
        Effect::SetStatus(format!("Killed: {}", expected_line))
    );
    // Deleting from the Workspaces pane is a no-op.
    m.home_layout.selected = HomeLayoutSelectedWindow::Workspaces;
    let (_, effects) = m.update(Message::Delete, 2);
    assert!(effects.is_empty());
}

#[test]
fn status_line_format() {
    let mut m = fresh_model();
    assert_eq!(m.status_msg, "Initialized Application");
    m.update_status("hello", 12345);
    assert_eq!(m.elapsed_time_string(), format!("{:3}.{:03}", 12, 345));
    assert_eq!(m.status_msg_display(), "[ 12.345] hello");
    m.update_status("x", 2);
    assert_eq!(m.status_msg_display(), "[  0.002] x");
}

#[test]
fn workspace_window_names_render_lines() {
    let m = Model::new(
        three_ws_snapshot(vec![leaf_id("a", 1)], Vec::new(), Vec::new()),
        0,
    );
    let names = m.workspace_window_names(&"1".to_string());
    assert_eq!(
        names,
        vec![format!("[{:15}] {:20} <{}>", "", "a", "No Scratchpad")]
    );
    assert!(m.workspace_window_names(&"9".to_string()).is_empty());
}

#[test]
fn selected_workspace_falls_back_to_first_when_stale() {
    let mut m = fresh_model();
    m.home_layout.workspaces_index = 7;
    assert_eq!(m.selected_workspace(), Some("1".to_string()));
    m.home_layout.workspaces_index = 1;
    assert_eq!(m.selected_workspace(), Some("2".to_string()));
}

#[test]
fn focus_and_delete_helpers() {
    let mut focused = leaf_id("f", 77);
    focused.focused = true;
    // The window list arrives already expanded, the way the manager's
    // tree query reports it: containers first, their nodes after.
    let m = Model::new(
        Snapshot::new(
            vec![ws_window("1", vec![focused.clone()]), focused],
            Vec::new(),
            vec![workspace(1, "1")],
        ),
        0,
    );
    assert_eq!(m.focus(), Some(Effect::Focus(77)));
    assert_eq!(
        m.snapshot.fcsd_window.as_ref().unwrap().name,
        Some("f".to_string())
    );
    // Deleting addresses the highlighted attached window with a kill.
    assert_eq!(m.delete_attached_window(), Some(Effect::Kill(77)));
}

#[test]
fn floating_window_names_skip_unnamed() {
    let named = leaf_id("float", 3);
    let unnamed = Window { name: None, ..leaf_id("", 4) };
    let m = Model::new(
        Snapshot::new(
            Vec::new(),
            vec![unnamed, named],
            vec![workspace(1, "1")],
        ),
        0,
    );
    assert_eq!(
        m.floating_window_names(),
        vec![format!("[{:15}] {:20} <{}>", "", "float", "No Scratchpad")]
    );
}

#[test]
fn workspace_status_line_reports_index() {
    let mut m = fresh_model();
    assert_eq!(m.workspace_status_line(), "Selected workspace: 0");
    m.update(Message::MoveUp, 1);
    assert_eq!(m.workspace_status_line(), "Selected workspace: 2");
}

#[test]
fn show_key_is_a_no_op() {
    let mut m = fresh_model();
    let nav = m.home_layout;
    let (next, effects) = m.update(Message::ShowKey, 1);
    assert!(next.is_none());
    assert!(effects.is_empty());
    assert_eq!(m.home_layout, nav);
    assert_eq!(m.running_state, RunningState::Running);
}
