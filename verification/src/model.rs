//! The application model: the latest tree snapshot, the navigation
//! state, status metadata, and the update algorithm.
//!
//! `update` is a pure state transition: it mutates the model in place
//! and returns the commands the surrounding event loop must perform,
//! in order. Pulling a fresh snapshot is itself such a command
//! (`Effect::Refresh`); the loop answers it by querying the manager and
//! calling `refresh` with the result.

use vstd::prelude::*;
use vstd::string::StrSliceExecFns;
use vstd::string::StringExecFns;
use crate::effect::Effect;
use crate::effect::EffectView;
use crate::effect::effect_views;
use crate::nav::HomeLayout;
use crate::nav::HomeLayoutSelectedWindow;
use crate::nav::pane_down;
use crate::nav::pane_left;
use crate::nav::pane_right;
use crate::nav::pane_up;
use crate::nav::spec_move_down_inside;
use crate::nav::spec_move_up_inside;
use crate::snapshot::Snapshot;
use crate::snapshot::opt_window_view;
use crate::snapshot::ws_map_views;
use crate::text::spec_decimal;
use crate::text::spec_pad_left;
use crate::text::spec_zero_pad_left;
use crate::text::str_views;
use crate::text::pad_left;
use crate::text::u64_to_string;
use crate::text::zero_pad_left;
use crate::window::Window;
use crate::window::WindowView;
use crate::window::named_pred;
use crate::window::spec_name_str;
use crate::window::spec_named_nodes_all;
use crate::window::lemma_flatten_filter_named;
use crate::window::lemma_named_nodes_all_push;
use crate::window::lemma_views_of_nodes;
use crate::window::lemma_views_of_nodes_push;
use crate::window::views_of_nodes;

verus! {

/// Whether the event loop should keep running.
#[derive(Clone, Copy, Debug, PartialEq, Eq, Structural)]
pub enum RunningState {
    Running,
    Done,
}

/// The screens of the application; today only the home screen exists,
/// kept as a closed set so that further screens become new variants.
#[derive(Clone, Copy, Debug, PartialEq, Eq, Structural)]
pub enum AppLayout {
    HomeLayout,
}

/// One abstract input message, produced from a key press.
#[derive(Clone, Copy, Debug, PartialEq, Eq, Structural)]
pub enum Message {
    Quit,
    ShowKey,
    RefreshModel,
    MoveUp,
    MoveRight,
    MoveLeft,
    MoveDown,
    MoveUpMenu,
    MoveRightMenu,
    MoveDownMenu,
    MoveLeftMenu,
    /// Used to add a workspace, window, etc.
    Add,
    /// Consolidate all windows to a single workspace.
    Consolidate,
    /// Focus a given window or workspace.
    GoTo,
    /// Delete a workspace or window.
    Delete,
}

/// One decoded key press, as the terminal layer hands it to the core.
#[derive(Clone, Copy, Debug, PartialEq, Eq, Structural)]
pub enum KeyPress {
    /// A printable character key.
    Char(char),
    /// The enter key.
    Enter,
    /// Any other key.
    Other,
}

/// The application model.
#[derive(Debug)]
pub struct Model {
    /// The latest tree snapshot, replaced wholesale on every refresh.
    pub snapshot: Snapshot,
    /// Whether the event loop should keep running.
    pub running_state: RunningState,
    /// The status line's message.
    pub status_msg: String,
    /// When the status message was last set, in session milliseconds.
    pub status_timestamp: u64,
    /// When the process started, in session milliseconds.
    pub startup_time: u64,
    /// The screen currently shown.
    pub current_menu: AppLayout,
    /// The navigation state of the home screen.
    pub home_layout: HomeLayout,
}

/// `m` with its navigation state replaced.
pub open spec fn with_hl(m: Model, h: HomeLayout) -> Model {
    Model { home_layout: h, ..m }
}

/// The message produced by one key press: the fixed, non-configurable
/// key binding surface of the dashboard.
pub open spec fn spec_key_message(key: KeyPress) -> Option<Message> {
    match key {
        KeyPress::Char(c) => if c == 'q' {
            Some(Message::Quit)
        } else if c == 's' {
            Some(Message::ShowKey)
        } else if c == 'r' {
            Some(Message::RefreshModel)
        } else if c == 'H' {
            Some(Message::MoveLeftMenu)
        } else if c == 'J' {
            Some(Message::MoveDownMenu)
        } else if c == 'K' {
            Some(Message::MoveUpMenu)
        } else if c == 'L' {
            Some(Message::MoveRightMenu)
        } else if c == 'h' {
            Some(Message::MoveLeft)
        } else if c == 'j' {
            Some(Message::MoveDown)
        } else if c == 'k' {
            Some(Message::MoveUp)
        } else if c == 'l' {
            Some(Message::MoveRight)
        } else if c == 'a' {
            Some(Message::Add)
        } else if c == 'c' {
            Some(Message::Consolidate)
        } else if c == 'd' {
            Some(Message::Delete)
        } else {
            None
        },
        KeyPress::Enter => Some(Message::GoTo),
        KeyPress::Other => None,
    }
}

/// The milliseconds elapsed from startup to the last status update;
/// a status older than the startup stamp counts as zero.
pub open spec fn spec_elapsed_ms(m: Model) -> nat {
    if m.status_timestamp >= m.startup_time {
        (m.status_timestamp - m.startup_time) as nat
    } else {
        0
    }
}

/// The elapsed-time counter: seconds (modulo 1000) right-aligned in
/// three columns, a dot, and the milliseconds zero-padded to three.
pub open spec fn spec_elapsed_string(m: Model) -> Seq<char> {
    spec_pad_left(spec_decimal((spec_elapsed_ms(m) / 1000) % 1000), 3) + "."@ + spec_zero_pad_left(
        spec_decimal(spec_elapsed_ms(m) % 1000),
        3,
    )
}

/// The status line: the elapsed-time counter in brackets, then the
/// status message.
pub open spec fn spec_status_display(m: Model) -> Seq<char> {
    "["@ + spec_elapsed_string(m) + "] "@ + m.status_msg@
}

/// The name of the selected workspace: the workspace under the
/// highlighted index, the first workspace when the index is stale, and
/// nothing when no workspaces exist.
pub open spec fn spec_selected_workspace(m: Model) -> Option<Seq<char>> {
    let wss = m.snapshot.workspaces@;
    if wss.len() == 0 {
        None
    } else if m.home_layout.workspaces_index < wss.len() {
        Some(wss[m.home_layout.workspaces_index as int].name@)
    } else {
        Some(wss[0].name@)
    }
}

/// The windows of the named workspace in the stored table, or nothing
/// when the table has no entry of that name.
pub open spec fn spec_lookup(table: Seq<(Seq<char>, Seq<WindowView>)>, name: Seq<char>) -> Option<
    Seq<WindowView>,
>
    decreases table.len(),
{
    if table.len() == 0 {
        None
    } else if table[0].0 == name {
        Some(table[0].1)
    } else {
        spec_lookup(table.drop_first(), name)
    }
}

/// The display lines of a sequence of windows.
pub open spec fn spec_window_lines(s: Seq<WindowView>) -> Seq<Seq<char>> {
    s.map_values(|v: WindowView| spec_name_str(v))
}

/// The user-visible windows of the named workspace: the named nodes,
/// in pre-order, of every window in the workspace's table entry.
pub open spec fn spec_workspace_windows(m: Model, name: Seq<char>) -> Seq<WindowView> {
    match spec_lookup(ws_map_views(m.snapshot.ws_map@), name) {
        Some(nodes) => spec_named_nodes_all(nodes),
        None => Seq::empty(),
    }
}

/// How many user-visible windows the selected workspace has; zero when
/// no workspace is selected.
pub open spec fn spec_n_attached(m: Model) -> nat {
    match spec_selected_workspace(m) {
        Some(name) => spec_workspace_windows(m, name).len(),
        None => 0,
    }
}

/// The highlighted attached window: the user-visible window of the
/// selected workspace under the highlighted index, the first one when
/// the index is stale, and nothing when the collection is empty.
pub open spec fn spec_selected_attached(m: Model) -> Option<WindowView> {
    match spec_selected_workspace(m) {
        None => None,
        Some(name) => {
            let ws = spec_workspace_windows(m, name);
            if ws.len() == 0 {
                None
            } else if m.home_layout.attached_windows_index < ws.len() {
                Some(ws[m.home_layout.attached_windows_index as int])
            } else {
                Some(ws[0])
            }
        },
    }
}

/// The workspace number a new workspace is created under: one past
/// the highlighted index, held at the machine bound.
pub open spec fn spec_next_workspace_number(idx: nat) -> nat {
    if idx + 1 <= u64::MAX {
        idx + 1
    } else {
        idx
    }
}

/// The commands of an `Add` message: switch to the successor
/// workspace (creating it), pull a fresh snapshot, and show the
/// scratchpad — only while the `Workspaces` pane is selected.
pub open spec fn spec_add_effects(m: Model) -> Seq<EffectView> {
    if m.home_layout.selected == HomeLayoutSelectedWindow::Workspaces {
        seq![
            EffectView::SwitchToWorkspace(
                spec_decimal(spec_next_workspace_number(m.home_layout.workspaces_index as nat)),
            ),
            EffectView::Refresh,
            EffectView::ShowScratchpad,
        ]
    } else {
        Seq::empty()
    }
}

/// The move commands that bring every named window to `target`.
pub open spec fn spec_moves_of(nodes: Seq<WindowView>, target: Seq<char>) -> Seq<EffectView> {
    nodes.map_values(|v: WindowView| EffectView::MoveToWorkspace(v.id, target))
}

/// The move commands of a consolidation: for every workspace of the
/// table except the target itself, one move per user-visible window,
/// in table order.
pub open spec fn spec_consolidate_moves(
    table: Seq<(Seq<char>, Seq<WindowView>)>,
    target: Seq<char>,
) -> Seq<EffectView>
    decreases table.len(),
{
    if table.len() == 0 {
        Seq::empty()
    } else {
        (if table[0].0 == target {
            Seq::empty()
        } else {
            spec_moves_of(spec_named_nodes_all(table[0].1), target)
        }) + spec_consolidate_moves(table.drop_first(), target)
    }
}

/// Consolidating one more table entry appends its moves.
pub proof fn lemma_consolidate_moves_push(
    table: Seq<(Seq<char>, Seq<WindowView>)>,
    e: (Seq<char>, Seq<WindowView>),
    target: Seq<char>,
)
    ensures
        spec_consolidate_moves(table.push(e), target) == spec_consolidate_moves(table, target) + (
        if e.0 == target {
            Seq::<EffectView>::empty()
        } else {
            spec_moves_of(spec_named_nodes_all(e.1), target)
        }),
    decreases table.len(),
{
    let tail = if e.0 == target {
        Seq::<EffectView>::empty()
    } else {
        spec_moves_of(spec_named_nodes_all(e.1), target)
    };
    if table.len() == 0 {
        assert(table.push(e).drop_first() =~= table);
        assert(spec_consolidate_moves(table.push(e), target) =~= spec_consolidate_moves(
            table,
            target,
        ) + tail);
    } else {
        assert(table.push(e).drop_first() =~= table.drop_first().push(e));
        lemma_consolidate_moves_push(table.drop_first(), e, target);
        assert(spec_consolidate_moves(table.push(e), target) =~= spec_consolidate_moves(
            table,
            target,
        ) + tail);
    }
}

/// The commands of a `Consolidate` message: the moves, then one
/// snapshot refresh — only while the `Workspaces` pane is selected
/// and a workspace is selected.
pub open spec fn spec_consolidate_effects(m: Model) -> Seq<EffectView> {
    if m.home_layout.selected == HomeLayoutSelectedWindow::Workspaces {
        match spec_selected_workspace(m) {
            Some(target) => spec_consolidate_moves(ws_map_views(m.snapshot.ws_map@), target)
                + seq![EffectView::Refresh],
            None => Seq::empty(),
        }
    } else {
        Seq::empty()
    }
}

/// The model after a `Consolidate` message: the workspace highlight
/// returns to the front whenever a consolidation was issued.
pub open spec fn spec_consolidate_state(m: Model) -> Model {
    if m.home_layout.selected == HomeLayoutSelectedWindow::Workspaces && spec_selected_workspace(
        m,
    ) is Some {
        with_hl(m, HomeLayout { workspaces_index: 0, ..m.home_layout })
    } else {
        m
    }
}

/// The commands of a `GoTo` message: focus the selected workspace or
/// attached window, then show the scratchpad.
pub open spec fn spec_goto_effects(m: Model) -> Seq<EffectView> {
    match m.home_layout.selected {
        HomeLayoutSelectedWindow::Workspaces => match spec_selected_workspace(m) {
            Some(name) => seq![
                EffectView::SwitchToWorkspace(name),
                EffectView::ShowScratchpad,
            ],
            None => Seq::empty(),
        },
        HomeLayoutSelectedWindow::Attached => match spec_selected_attached(m) {
            Some(v) => seq![EffectView::Focus(v.id), EffectView::ShowScratchpad],
            None => Seq::empty(),
        },
        _ => Seq::empty(),
    }
}

/// Whether a `GoTo` message updates the status line: it reports the
/// focused window exactly when an attached window was highlighted.
pub open spec fn spec_goto_updates_status(m: Model) -> bool {
    m.home_layout.selected == HomeLayoutSelectedWindow::Attached && spec_selected_attached(
        m,
    ) is Some
}

/// The commands of a `Delete` message: kill the highlighted attached
/// window, pull a fresh snapshot, and record what was killed. The
/// `Workspaces` pane deliberately deletes nothing.
pub open spec fn spec_delete_effects(m: Model) -> Seq<EffectView> {
    match m.home_layout.selected {
        HomeLayoutSelectedWindow::Attached => match spec_selected_attached(m) {
            Some(v) => seq![
                EffectView::Kill(v.id),
                EffectView::Refresh,
                EffectView::SetStatus("Killed: "@ + spec_name_str(v)),
            ],
            None => Seq::empty(),
        },
        _ => Seq::empty(),
    }
}

/// Filtering one more element keeps it exactly when the predicate
/// holds of it.
pub proof fn lemma_filter_push(s: Seq<WindowView>, x: WindowView, pred: spec_fn(WindowView) -> bool)
    ensures
        s.push(x).filter(pred) == s.filter(pred) + if pred(x) {
            seq![x]
        } else {
            Seq::empty()
        },
{
    reveal_with_fuel(Seq::<_>::filter, 3);
    assert(s.push(x) =~= s + seq![x]);
    Seq::filter_distributes_over_add(s, seq![x], pred);
    assert(seq![x].drop_last() =~= Seq::<WindowView>::empty());
    assert(seq![x].filter(pred) =~= if pred(x) {
        seq![x]
    } else {
        Seq::empty()
    });
}

/// Append a copy of every named window of `src` to `out`.
fn push_named(out: &mut Vec<Window>, src: &Vec<Window>)
    ensures
        views_of_nodes(final(out)@) == views_of_nodes(old(out)@) + views_of_nodes(src@).filter(
            named_pred(),
        ),
{
    proof {
        lemma_views_of_nodes(src@);
    }
    let ghost vs = views_of_nodes(src@);
    proof {
        assert(vs.take(0) =~= Seq::<WindowView>::empty());
        reveal_with_fuel(Seq::<_>::filter, 2);
        assert(views_of_nodes(out@) =~= views_of_nodes(old(out)@) + vs.take(0).filter(
            named_pred(),
        ));
    }
    let mut i: usize = 0;
    while i < src.len()
        invariant
            i <= src.len(),
            vs == views_of_nodes(src@),
            vs.len() == src@.len(),
            forall|j: int| 0 <= j < src@.len() ==> #[trigger] vs[j] == src@[j]@,
            views_of_nodes(out@) == views_of_nodes(old(out)@) + vs.take(i as int).filter(
                named_pred(),
            ),
        decreases src.len() - i,
    {
        let keep = match &src[i].name {
            Some(_) => true,
            None => false,
        };
        proof {
            assert(vs.take(i + 1) =~= vs.take(i as int).push(vs[i as int]));
            lemma_filter_push(vs.take(i as int), vs[i as int], named_pred());
        }
        if keep {
            let w = src[i].clone();
            proof {
                lemma_views_of_nodes_push(out@, w);
            }
            out.push(w);
        }
        proof {
            assert(views_of_nodes(out@) =~= views_of_nodes(old(out)@) + vs.take(i + 1).filter(
                named_pred(),
            ));
        }
        i = i + 1;
    }
    proof {
        assert(vs.take(src@.len() as int) =~= vs);
    }
}

/// Flatten every tree of `nodes` and keep the named windows: the
/// user-visible windows of a workspace, in pre-order.
fn flatten_and_filter(nodes: &Vec<Window>) -> (r: Vec<Window>)
    ensures
        views_of_nodes(r@) == spec_named_nodes_all(views_of_nodes(nodes@)),
{
    proof {
        lemma_views_of_nodes(nodes@);
    }
    let ghost vs = views_of_nodes(nodes@);
    let mut out: Vec<Window> = Vec::new();
    proof {
        assert(vs.take(0) =~= Seq::<WindowView>::empty());
        assert(views_of_nodes(out@) =~= spec_named_nodes_all(vs.take(0)));
    }
    let mut i: usize = 0;
    while i < nodes.len()
        invariant
            i <= nodes.len(),
            vs == views_of_nodes(nodes@),
            vs.len() == nodes@.len(),
            forall|j: int| 0 <= j < nodes@.len() ==> #[trigger] vs[j] == nodes@[j]@,
            views_of_nodes(out@) == spec_named_nodes_all(vs.take(i as int)),
        decreases nodes.len() - i,
    {
        let flat = nodes[i].flatten();
        push_named(&mut out, &flat);
        proof {
            lemma_flatten_filter_named(vs[i as int]);
            assert(vs.take(i + 1) =~= vs.take(i as int).push(vs[i as int]));
            lemma_named_nodes_all_push(vs.take(i as int), vs[i as int]);
        }
        i = i + 1;
    }
    proof {
        assert(vs.take(nodes@.len() as int) =~= vs);
    }
    out
}

/// The display line of every window of `windows`, in order.
fn window_lines(windows: &Vec<Window>) -> (r: Vec<String>)
    ensures
        str_views(r@) == spec_window_lines(views_of_nodes(windows@)),
{
    proof {
        lemma_views_of_nodes(windows@);
    }
    let ghost vs = views_of_nodes(windows@);
    let mut names: Vec<String> = Vec::new();
    let mut i: usize = 0;
    while i < windows.len()
        invariant
            i <= windows.len(),
            vs == views_of_nodes(windows@),
            vs.len() == windows@.len(),
            forall|j: int| 0 <= j < windows@.len() ==> #[trigger] vs[j] == windows@[j]@,
            names@.len() == i,
            str_views(names@) == spec_window_lines(vs.take(i as int)),
        decreases windows.len() - i,
    {
        let line = windows[i].name_str();
        let ghost lv = line@;
        names.push(line);
        proof {
            assert(lv == spec_name_str(vs[i as int]));
            assert(str_views(names@)[i as int] == lv);
            assert(spec_window_lines(vs.take(i + 1))[i as int] == spec_name_str(vs[i as int]));
            assert(forall|j: int| 0 <= j < i ==> #[trigger] str_views(names@)[j]
                == spec_window_lines(vs.take(i as int))[j]);
            assert(forall|j: int| 0 <= j < i ==> #[trigger] spec_window_lines(vs.take(i + 1))[j]
                == spec_window_lines(vs.take(i as int))[j]);
            assert(str_views(names@) =~= spec_window_lines(vs.take(i + 1)));
        }
        i = i + 1;
    }
    proof {
        assert(vs.take(windows@.len() as int) =~= vs);
    }
    names
}

impl Model {
    /// Initialize a new model around its first snapshot: the home
    /// screen with the `Workspaces` pane selected and both indices at
    /// zero, running, with a fresh status stamp.
    pub fn new(snapshot: Snapshot, now_ms: u64) -> (r: Model)
        ensures
            r.snapshot == snapshot,
            r.running_state == RunningState::Running,
            r.status_msg@ == "Initialized Application"@,
            r.status_timestamp == now_ms,
            r.startup_time == now_ms,
            r.current_menu == AppLayout::HomeLayout,
            r.home_layout == (HomeLayout {
                selected: HomeLayoutSelectedWindow::Workspaces,
                workspaces_index: 0,
                attached_windows_index: 0,
            }),
    {
        Model {
            snapshot,
            running_state: RunningState::Running,
            status_msg: "Initialized Application".to_owned(),
            status_timestamp: now_ms,
            startup_time: now_ms,
            current_menu: AppLayout::HomeLayout,
            home_layout: HomeLayout::new(),
        }
    }

    /// Update the status message and stamp it with the given time.
    pub fn update_status(&mut self, new_status: &str, now_ms: u64)
        ensures
            *final(self) == (Model {
                status_msg: final(self).status_msg,
                status_timestamp: now_ms,
                ..*old(self)
            }),
            final(self).status_msg@ == new_status@,
    {
        self.status_timestamp = now_ms;
        self.status_msg = new_status.to_owned();
    }

    /// Replace the stored snapshot wholesale with a freshly pulled one
    /// and record a fixed notice. The navigation state — selected pane
    /// and both indices — is left untouched, as are the run flag, the
    /// screen and the startup stamp, so refreshing any number of times
    /// in a row changes nothing but the snapshot and the status.
    pub fn refresh(&mut self, snapshot: Snapshot, now_ms: u64)
        ensures
            *final(self) == (Model {
                snapshot,
                status_msg: final(self).status_msg,
                status_timestamp: now_ms,
                ..*old(self)
            }),
            final(self).status_msg@ == "Refreshed"@,
            final(self).home_layout == old(self).home_layout,
    {
        self.snapshot = snapshot;
        self.update_status("Refreshed", now_ms);
    }

    /// The time elapsed from startup to the last status update, in a
    /// human-readable format.
    pub fn elapsed_time_string(&self) -> (r: String)
        ensures
            r@ == spec_elapsed_string(*self),
    {
        let elapsed: u64 = if self.status_timestamp >= self.startup_time {
            self.status_timestamp - self.startup_time
        } else {
            0
        };
        let secs: u64 = (elapsed / 1000) % 1000;
        let millis: u64 = elapsed % 1000;
        let mut r = pad_left(&u64_to_string(secs), 3);
        r.append(".");
        r.append(zero_pad_left(&u64_to_string(millis), 3).as_str());
        proof {
            assert(r@ =~= spec_elapsed_string(*self));
        }
        r
    }

    /// The status message together with the elapsed-time counter.
    pub fn status_msg_display(&self) -> (r: String)
        ensures
            r@ == spec_status_display(*self),
    {
        let mut r = "[".to_owned();
        r.append(self.elapsed_time_string().as_str());
        r.append("] ");
        r.append(self.status_msg.as_str());
        proof {
            assert(r@ =~= spec_status_display(*self));
        }
        r
    }

    /// The status notice recorded while the workspace pane renders:
    /// it reports the highlighted workspace index.
    pub fn workspace_status_line(&self) -> (r: String)
        ensures
            r@ == "Selected workspace: "@ + spec_decimal(
                self.home_layout.workspaces_index as nat,
            ),
    {
        let mut r = "Selected workspace: ".to_owned();
        r.append(u64_to_string(self.home_layout.workspaces_index as u64).as_str());
        proof {
            assert(r@ =~= "Selected workspace: "@ + spec_decimal(
                self.home_layout.workspaces_index as nat,
            ));
        }
        r
    }

    /// A copy of the home layout of this model.
    pub fn hl(&self) -> (r: HomeLayout)
        ensures
            r == self.home_layout,
    {
        self.home_layout
    }

    /// Replace the home layout of this model.
    pub fn set_hl(&mut self, hl: HomeLayout)
        ensures
            *final(self) == with_hl(*old(self), hl),
    {
        self.home_layout = hl;
    }

    /// The name of the selected workspace, when one exists: the
    /// workspace under the highlighted index, falling back to the
    /// first workspace when the index is stale.
    pub fn selected_workspace(&self) -> (r: Option<String>)
        ensures
            crate::window::opt_view(r) == spec_selected_workspace(*self),
    {
        let wss = &self.snapshot.workspaces;
        if wss.len() == 0 {
            None
        } else if self.home_layout.workspaces_index < wss.len() {
            Some(wss[self.home_layout.workspaces_index].name.clone())
        } else {
            Some(wss[0].name.clone())
        }
    }

    /// The user-visible windows of the named workspace: every window
    /// of its table entry, flattened in pre-order, named nodes only.
    /// A name missing from the table yields no windows.
    pub fn workspace_windows(&self, workspace_name: &String) -> (r: Vec<Window>)
        ensures
            views_of_nodes(r@) == spec_workspace_windows(*self, workspace_name@),
    {
        let ghost tv = ws_map_views(self.snapshot.ws_map@);
        proof {
            assert(tv.skip(0) =~= tv);
        }
        let mut i: usize = 0;
        while i < self.snapshot.ws_map.len()
            invariant
                i <= self.snapshot.ws_map@.len(),
                tv == ws_map_views(self.snapshot.ws_map@),
                spec_lookup(tv, workspace_name@) == spec_lookup(
                    tv.skip(i as int),
                    workspace_name@,
                ),
            decreases self.snapshot.ws_map@.len() - i,
        {
            proof {
                assert(tv.skip(i as int).len() > 0);
                assert(tv.skip(i as int)[0] == tv[i as int]);
                assert(tv.skip(i as int).drop_first() =~= tv.skip(i + 1));
            }
            if self.snapshot.ws_map[i].0 == *workspace_name {
                proof {
                    assert(tv[i as int] == (self.snapshot.ws_map@[i as int].0@, views_of_nodes(
                        self.snapshot.ws_map@[i as int].1@,
                    )));
                    assert(spec_lookup(tv.skip(i as int), workspace_name@) == Some(
                        tv[i as int].1,
                    ));
                }
                let r = flatten_and_filter(&self.snapshot.ws_map[i].1);
                proof {
                    assert(views_of_nodes(r@) == spec_named_nodes_all(tv[i as int].1));
                    assert(views_of_nodes(r@) == spec_workspace_windows(*self, workspace_name@));
                }
                return r;
            }
            i = i + 1;
        }
        proof {
            assert(tv.skip(self.snapshot.ws_map@.len() as int).len() == 0);
        }
        Vec::new()
    }

    /// The display lines of the user-visible windows of the named
    /// workspace.
    pub fn workspace_window_names(&self, workspace_name: &String) -> (r: Vec<String>)
        ensures
            str_views(r@) == spec_window_lines(spec_workspace_windows(*self, workspace_name@)),
    {
        let windows = self.workspace_windows(workspace_name);
        window_lines(&windows)
    }

    /// The display lines of the named floating windows, in order.
    pub fn floating_window_names(&self) -> (r: Vec<String>)
        ensures
            str_views(r@) == spec_window_lines(
                views_of_nodes(self.snapshot.floating_windows@).filter(named_pred()),
            ),
    {
        let mut named: Vec<Window> = Vec::new();
        proof {
            assert(views_of_nodes(Seq::<Window>::empty()) =~= Seq::<WindowView>::empty());
        }
        push_named(&mut named, &self.snapshot.floating_windows);
        window_lines(&named)
    }

    /// How many user-visible windows the selected workspace has; zero
    /// when no workspace is selected.
    pub fn n_attached_windows(&self) -> (r: usize)
        ensures
            r as nat == spec_n_attached(*self),
    {
        match self.selected_workspace() {
            Some(name) => {
                let windows = self.workspace_windows(&name);
                proof {
                    lemma_views_of_nodes(windows@);
                }
                windows.len()
            },
            None => 0,
        }
    }

    /// The highlighted attached window of the selected workspace, when
    /// that workspace has any user-visible window: the one under the
    /// highlighted index, falling back to the first when the index is
    /// stale.
    pub fn selected_attached_window(&self) -> (r: Option<Window>)
        ensures
            opt_window_view(r) == spec_selected_attached(*self),
    {
        match self.selected_workspace() {
            None => None,
            Some(selected_ws) => {
                let nodes = self.workspace_windows(&selected_ws);
                proof {
                    lemma_views_of_nodes(nodes@);
                }
                if nodes.len() == 0 {
                    None
                } else if self.home_layout.attached_windows_index < nodes.len() {
                    Some(nodes[self.home_layout.attached_windows_index].clone())
                } else {
                    Some(nodes[0].clone())
                }
            },
        }
    }

    /// The command that focuses the window that was focused when the
    /// snapshot was taken, when there was one.
    pub fn focus(&self) -> (r: Option<Effect>)
        ensures
            r == match self.snapshot.fcsd_window {
                Some(w) => Some(Effect::Focus(w.id)),
                None => None::<Effect>,
            },
    {
        match &self.snapshot.fcsd_window {
            Some(focused) => Some(Effect::Focus(focused.id)),
            None => None,
        }
    }

    /// The command that kills the highlighted attached window, when
    /// one is highlighted.
    pub fn delete_attached_window(&self) -> (r: Option<Effect>)
        ensures
            r == match spec_selected_attached(*self) {
                Some(v) => Some(Effect::Kill(v.id)),
                None => None::<Effect>,
            },
    {
        match self.selected_attached_window() {
            Some(selected_window) => Some(selected_window.kill()),
            None => None,
        }
    }

    /// The command that shows the scratchpad.
    pub fn show_scratchpad(&self) -> (r: Effect)
        ensures
            r == Effect::ShowScratchpad,
    {
        Effect::ShowScratchpad
    }

    /// The commands that create the workspace one past the highlighted
    /// index: switch to it (the manager creates a missing workspace on
    /// switch), pull a fresh snapshot, and show the scratchpad.
    pub fn add_workspace(&self) -> (effects: Vec<Effect>)
        ensures
            effect_views(effects@) == seq![
                EffectView::SwitchToWorkspace(
                    spec_decimal(
                        spec_next_workspace_number(self.home_layout.workspaces_index as nat),
                    ),
                ),
                EffectView::Refresh,
                EffectView::ShowScratchpad,
            ],
    {
        let n: u64 = self.home_layout.workspaces_index as u64;
        let next: u64 = if n == u64::MAX {
            n
        } else {
            n + 1
        };
        let name = u64_to_string(next);
        let mut effects: Vec<Effect> = Vec::new();
        effects.push(Effect::SwitchToWorkspace(name));
        effects.push(Effect::Refresh);
        effects.push(self.show_scratchpad());
        proof {
            assert(effect_views(effects@) =~= seq![
                EffectView::SwitchToWorkspace(
                    spec_decimal(
                        spec_next_workspace_number(self.home_layout.workspaces_index as nat),
                    ),
                ),
                EffectView::Refresh,
                EffectView::ShowScratchpad,
            ]);
        }
        effects
    }

    /// Handle adding an element to one of the panes: only the
    /// `Workspaces` pane adds anything today.
    pub fn handle_add(&self) -> (effects: Vec<Effect>)
        ensures
            effect_views(effects@) == spec_add_effects(*self),
    {
        match self.home_layout.selected {
            HomeLayoutSelectedWindow::Workspaces => self.add_workspace(),
            _ => Vec::new(),
        }
    }

    /// Move every user-visible window of every other workspace to the
    /// target workspace, reset the workspace highlight to the front,
    /// and ask for a fresh snapshot.
    pub fn consolidate_workspaces(&mut self, target_workspace: &String) -> (effects: Vec<Effect>)
        ensures
            *final(self) == with_hl(
                *old(self),
                HomeLayout { workspaces_index: 0, ..old(self).home_layout },
            ),
            effect_views(effects@) == spec_consolidate_moves(
                ws_map_views(old(self).snapshot.ws_map@),
                target_workspace@,
            ) + seq![EffectView::Refresh],
    {
        let mut effects: Vec<Effect> = Vec::new();
        let ghost tv = ws_map_views(self.snapshot.ws_map@);
        proof {
            assert(tv.take(0) =~= Seq::<(Seq<char>, Seq<WindowView>)>::empty());
            assert(effect_views(effects@) =~= spec_consolidate_moves(
                tv.take(0),
                target_workspace@,
            ));
        }
        let mut j: usize = 0;
        while j < self.snapshot.ws_map.len()
            invariant
                j <= self.snapshot.ws_map@.len(),
                *self == *old(self),
                tv == ws_map_views(self.snapshot.ws_map@),
                effect_views(effects@) == spec_consolidate_moves(
                    tv.take(j as int),
                    target_workspace@,
                ),
            decreases self.snapshot.ws_map@.len() - j,
        {
            proof {
                assert(tv[j as int] == (self.snapshot.ws_map@[j as int].0@, views_of_nodes(
                    self.snapshot.ws_map@[j as int].1@,
                )));
            }
            let skip_entry = self.snapshot.ws_map[j].0 == *target_workspace;
            if !skip_entry {
                let named = flatten_and_filter(&self.snapshot.ws_map[j].1);
                proof {
                    lemma_views_of_nodes(named@);
                }
                let ghost nvs = views_of_nodes(named@);
                let ghost prev = effect_views(effects@);
                proof {
                    assert(spec_moves_of(nvs, target_workspace@).take(0)
                        =~= Seq::<EffectView>::empty());
                    assert(effect_views(effects@) =~= prev + spec_moves_of(
                        nvs,
                        target_workspace@,
                    ).take(0));
                }
                let mut k: usize = 0;
                while k < named.len()
                    invariant
                        k <= named.len(),
                        effects@.len() == prev.len() + k,
                        nvs == views_of_nodes(named@),
                        nvs.len() == named@.len(),
                        forall|t: int| 0 <= t < named@.len() ==> #[trigger] nvs[t] == named@[t]@,
                        effect_views(effects@) == prev + spec_moves_of(
                            nvs,
                            target_workspace@,
                        ).take(k as int),
                    decreases named.len() - k,
                {
                    let moved = Effect::MoveToWorkspace(named[k].id, target_workspace.clone());
                    let ghost mv = moved@;
                    effects.push(moved);
                    proof {
                        assert(mv == EffectView::MoveToWorkspace(
                            nvs[k as int].id,
                            target_workspace@,
                        ));
                        assert(effect_views(effects@).len() == prev.len() + k + 1);
                        assert(effect_views(effects@)[prev.len() + k as int] == mv);
                        assert(spec_moves_of(nvs, target_workspace@)[k as int] == mv);
                        assert(forall|t: int| 0 <= t < prev.len() + k ==> #[trigger] effect_views(
                            effects@,
                        )[t] == (prev + spec_moves_of(nvs, target_workspace@).take(k as int))[t]);
                        assert(effect_views(effects@) =~= prev + spec_moves_of(
                            nvs,
                            target_workspace@,
                        ).take(k + 1));
                    }
                    k = k + 1;
                }
                proof {
                    assert(spec_moves_of(nvs, target_workspace@).take(named@.len() as int)
                        =~= spec_moves_of(nvs, target_workspace@));
                }
            }
            proof {
                assert(tv.take(j + 1) =~= tv.take(j as int).push(tv[j as int]));
                lemma_consolidate_moves_push(tv.take(j as int), tv[j as int], target_workspace@);
                assert(effect_views(effects@) =~= spec_consolidate_moves(
                    tv.take(j + 1),
                    target_workspace@,
                ));
            }
            j = j + 1;
        }
        proof {
            assert(tv.take(self.snapshot.ws_map@.len() as int) =~= tv);
        }
        self.home_layout.workspaces_index = 0;
        effects.push(Effect::Refresh);
        proof {
            assert(effect_views(effects@) =~= spec_consolidate_moves(tv, target_workspace@)
                + seq![EffectView::Refresh]);
        }
        effects
    }

    /// Handle a consolidation request: only the `Workspaces` pane,
    /// with a selected workspace, consolidates anything.
    pub fn handle_consolidate(&mut self) -> (effects: Vec<Effect>)
        ensures
            *final(self) == spec_consolidate_state(*old(self)),
            effect_views(effects@) == spec_consolidate_effects(*old(self)),
    {
        match self.home_layout.selected {
            HomeLayoutSelectedWindow::Workspaces => {
                match self.selected_workspace() {
                    Some(target) => self.consolidate_workspaces(&target),
                    None => Vec::new(),
                }
            },
            _ => Vec::new(),
        }
    }

    /// Jump to the selected workspace or window: switch or focus, then
    /// show the scratchpad; jumping to an attached window also reports
    /// it on the status line.
    pub fn handle_goto(&mut self, now_ms: u64) -> (effects: Vec<Effect>)
        ensures
            effect_views(effects@) == spec_goto_effects(*old(self)),
            spec_goto_updates_status(*old(self)) ==> *final(self) == (Model {
                status_msg: final(self).status_msg,
                status_timestamp: now_ms,
                ..*old(self)
            }),
            spec_goto_updates_status(*old(self)) ==> (match spec_selected_attached(*old(self)) {
                Some(v) => final(self).status_msg@ == "Focused: "@ + spec_name_str(v),
                None => false,
            }),
            !spec_goto_updates_status(*old(self)) ==> *final(self) == *old(self),
    {
        match self.home_layout.selected {
            HomeLayoutSelectedWindow::Workspaces => {
                match self.selected_workspace() {
                    Some(selected) => {
                        let mut effects: Vec<Effect> = Vec::new();
                        effects.push(Effect::SwitchToWorkspace(selected));
                        effects.push(self.show_scratchpad());
                        proof {
                            assert(effect_views(effects@) =~= spec_goto_effects(*self));
                        }
                        effects
                    },
                    None => Vec::new(),
                }
            },
            HomeLayoutSelectedWindow::Attached => {
                match self.selected_attached_window() {
                    Some(selected_window) => {
                        let mut effects: Vec<Effect> = Vec::new();
                        effects.push(selected_window.focus_window());
                        effects.push(self.show_scratchpad());
                        let mut msg = "Focused: ".to_owned();
                        msg.append(selected_window.name_str().as_str());
                        proof {
                            assert(effect_views(effects@) =~= spec_goto_effects(*self));
                        }
                        self.update_status(msg.as_str(), now_ms);
                        effects
                    },
                    None => Vec::new(),
                }
            },
            _ => Vec::new(),
        }
    }

    /// Delete the highlighted attached window: kill it, ask for a
    /// fresh snapshot, and record what was killed. Deleting from the
    /// `Workspaces` pane is deliberately not implemented.
    pub fn handle_delete(&self) -> (effects: Vec<Effect>)
        ensures
            effect_views(effects@) == spec_delete_effects(*self),
    {
        match self.home_layout.selected {
            HomeLayoutSelectedWindow::Attached => {
                match self.selected_attached_window() {
                    Some(selected_window) => {
                        let mut effects: Vec<Effect> = Vec::new();
                        effects.push(selected_window.kill());
                        effects.push(Effect::Refresh);
                        let mut msg = "Killed: ".to_owned();
                        msg.append(selected_window.name_str().as_str());
                        effects.push(Effect::SetStatus(msg));
                        proof {
                            assert(effect_views(effects@) =~= spec_delete_effects(*self));
                        }
                        effects
                    },
                    None => Vec::new(),
                }
            },
            _ => Vec::new(),
        }
    }

    /// Apply one message to the model: mutate the state in place and
    /// return the commands the event loop must perform, in order. The
    /// first component allows an update to chain a derived message;
    /// no message produces one today, so it is always `None`.
    pub fn update(&mut self, msg: Message, now_ms: u64) -> (r: (Option<Message>, Vec<Effect>))
        ensures
            r.0 is None,
            final(self).snapshot == old(self).snapshot,
            final(self).startup_time == old(self).startup_time,
            msg != Message::Quit ==> final(self).running_state == old(self).running_state,
            msg == Message::Quit ==> *final(self) == (Model {
                running_state: RunningState::Done,
                ..*old(self)
            }) && r.1@.len() == 0,
            msg == Message::ShowKey ==> *final(self) == *old(self) && r.1@.len() == 0,
            msg == Message::RefreshModel ==> *final(self) == *old(self) && effect_views(r.1@)
                == seq![EffectView::Refresh],
            msg == Message::MoveUpMenu ==> *final(self) == with_hl(
                *old(self),
                HomeLayout {
                    selected: pane_up(old(self).home_layout.selected),
                    ..old(self).home_layout
                },
            ) && r.1@.len() == 0,
            msg == Message::MoveDownMenu ==> *final(self) == with_hl(
                *old(self),
                HomeLayout {
                    selected: pane_down(old(self).home_layout.selected),
                    ..old(self).home_layout
                },
            ) && r.1@.len() == 0,
            msg == Message::MoveLeftMenu || msg == Message::MoveLeft ==> *final(self) == with_hl(
                *old(self),
                HomeLayout {
                    selected: pane_left(old(self).home_layout.selected),
                    ..old(self).home_layout
                },
            ) && r.1@.len() == 0,
            msg == Message::MoveRightMenu || msg == Message::MoveRight ==> *final(self) == with_hl(
                *old(self),
                HomeLayout {
                    selected: pane_right(old(self).home_layout.selected),
                    ..old(self).home_layout
                },
            ) && r.1@.len() == 0,
            msg == Message::MoveUp ==> *final(self) == with_hl(
                *old(self),
                spec_move_up_inside(
                    old(self).home_layout,
                    old(self).snapshot.workspaces@.len(),
                    spec_n_attached(*old(self)),
                ),
            ) && r.1@.len() == 0,
            msg == Message::MoveDown ==> *final(self) == with_hl(
                *old(self),
                spec_move_down_inside(
                    old(self).home_layout,
                    old(self).snapshot.workspaces@.len(),
                    spec_n_attached(*old(self)),
                ),
            ) && r.1@.len() == 0,
            msg == Message::Add ==> *final(self) == *old(self) && effect_views(r.1@)
                == spec_add_effects(*old(self)),
            msg == Message::Consolidate ==> *final(self) == spec_consolidate_state(*old(self))
                && effect_views(r.1@) == spec_consolidate_effects(*old(self)),
            msg == Message::GoTo ==> effect_views(r.1@) == spec_goto_effects(*old(self)),
            msg == Message::GoTo && spec_goto_updates_status(*old(self)) ==> *final(self) == (Model {
                status_msg: final(self).status_msg,
                status_timestamp: now_ms,
                ..*old(self)
            }) && (match spec_selected_attached(*old(self)) {
                Some(v) => final(self).status_msg@ == "Focused: "@ + spec_name_str(v),
                None => false,
            }),
            msg == Message::GoTo && !spec_goto_updates_status(*old(self)) ==> *final(self) == *old(
                self,
            ),
            msg == Message::Delete ==> *final(self) == *old(self) && effect_views(r.1@)
                == spec_delete_effects(*old(self)),
    {
        match msg {
            Message::Quit => {
                self.running_state = RunningState::Done;
                (None, Vec::new())
            },
            Message::ShowKey => (None, Vec::new()),
            Message::RefreshModel => {
                let mut effects: Vec<Effect> = Vec::new();
                effects.push(Effect::Refresh);
                proof {
                    assert(effect_views(effects@) =~= seq![EffectView::Refresh]);
                }
                (None, effects)
            },
            Message::MoveUpMenu => {
                match self.current_menu {
                    AppLayout::HomeLayout => self.home_layout.move_up(),
                }
                (None, Vec::new())
            },
            Message::MoveDownMenu => {
                match self.current_menu {
                    AppLayout::HomeLayout => self.home_layout.move_down(),
                }
                (None, Vec::new())
            },
            Message::MoveLeftMenu => {
                match self.current_menu {
                    AppLayout::HomeLayout => self.home_layout.move_left(),
                }
                (None, Vec::new())
            },
            Message::MoveRightMenu => {
                match self.current_menu {
                    AppLayout::HomeLayout => self.home_layout.move_right(),
                }
                (None, Vec::new())
            },
            Message::MoveUp => {
                match self.current_menu {
                    AppLayout::HomeLayout => {
                        let n_attached = self.n_attached_windows();
                        let n_workspaces = self.snapshot.workspaces.len();
                        self.home_layout.move_up_inside(n_workspaces, n_attached);
                    },
                }
                (None, Vec::new())
            },
            Message::MoveDown => {
                match self.current_menu {
                    AppLayout::HomeLayout => {
                        let n_attached = self.n_attached_windows();
                        let n_workspaces = self.snapshot.workspaces.len();
                        self.home_layout.move_down_inside(n_workspaces, n_attached);
                    },
                }
                (None, Vec::new())
            },
            Message::MoveLeft => {
                match self.current_menu {
                    AppLayout::HomeLayout => self.home_layout.move_left(),
                }
                (None, Vec::new())
            },
            Message::MoveRight => {
                match self.current_menu {
                    AppLayout::HomeLayout => self.home_layout.move_right(),
                }
                (None, Vec::new())
            },
            Message::Add => {
                match self.current_menu {
                    AppLayout::HomeLayout => (None, self.handle_add()),
                }
            },
            Message::Consolidate => {
                match self.current_menu {
                    AppLayout::HomeLayout => (None, self.handle_consolidate()),
                }
            },
            Message::GoTo => {
                match self.current_menu {
                    AppLayout::HomeLayout => (None, self.handle_goto(now_ms)),
                }
            },
            Message::Delete => {
                match self.current_menu {
                    AppLayout::HomeLayout => (None, self.handle_delete()),
                }
            },
        }
    }

    /// Decode one key press into its message, per the fixed binding
    /// table; any other key yields no message.
    pub fn handle_key(&self, key: KeyPress) -> (r: Option<Message>)
        ensures
            r == spec_key_message(key),
    {
        match key {
            KeyPress::Char(c) => {
                if c == 'q' {
                    Some(Message::Quit)
                } else if c == 's' {
                    Some(Message::ShowKey)
                } else if c == 'r' {
                    Some(Message::RefreshModel)
                } else if c == 'H' {
                    Some(Message::MoveLeftMenu)
                } else if c == 'J' {
                    Some(Message::MoveDownMenu)
                } else if c == 'K' {
                    Some(Message::MoveUpMenu)
                } else if c == 'L' {
                    Some(Message::MoveRightMenu)
                } else if c == 'h' {
                    Some(Message::MoveLeft)
                } else if c == 'j' {
                    Some(Message::MoveDown)
                } else if c == 'k' {
                    Some(Message::MoveUp)
                } else if c == 'l' {
                    Some(Message::MoveRight)
                } else if c == 'a' {
                    Some(Message::Add)
                } else if c == 'c' {
                    Some(Message::Consolidate)
                } else if c == 'd' {
                    Some(Message::Delete)
                } else {
                    None
                }
            },
            KeyPress::Enter => Some(Message::GoTo),
            KeyPress::Other => None,
        }
    }
}

} // verus!
