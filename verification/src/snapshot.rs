//! One consistent pull of the window-manager tree and its derived
//! views.
//!
//! The surrounding program queries the manager for the raw attached
//! windows, floating windows and workspaces, and hands them to
//! `Snapshot::new`; every derived view (full window list, per-workspace
//! windows and names, focused window) is computed here, so all fields
//! come from the same query round and stay mutually consistent.

use vstd::prelude::*;
use crate::text::str_views;
use crate::window::Window;
use crate::window::WindowView;
use crate::window::spec_node_names;
use crate::window::views_of_nodes;
use crate::window::lemma_views_of_nodes;
use crate::window::lemma_views_of_nodes_take;
use crate::workspace::Workspace;

verus! {

/// The view of an optional window.
pub open spec fn opt_window_view(o: Option<Window>) -> Option<WindowView> {
    match o {
        Some(w) => Some(w@),
        None => None,
    }
}

/// The views of a workspace-to-windows table.
pub open spec fn ws_map_views(s: Seq<(String, Vec<Window>)>) -> Seq<(Seq<char>, Seq<WindowView>)> {
    s.map_values(|p: (String, Vec<Window>)| (p.0@, views_of_nodes(p.1@)))
}

/// The views of a workspace-to-names table.
pub open spec fn ws_names_views(s: Seq<(String, Vec<String>)>) -> Seq<(Seq<char>, Seq<Seq<char>>)> {
    s.map_values(|p: (String, Vec<String>)| (p.0@, str_views(p.1@)))
}

/// The first window of `s` named `name`, if any.
pub open spec fn spec_find_named(s: Seq<WindowView>, name: Seq<char>) -> Option<WindowView>
    decreases s.len(),
{
    if s.len() == 0 {
        None
    } else if s[0].name == Some(name) {
        Some(s[0])
    } else {
        spec_find_named(s.drop_first(), name)
    }
}

/// The first focused window of `s`, if any.
pub open spec fn spec_find_focused(s: Seq<WindowView>) -> Option<WindowView>
    decreases s.len(),
{
    if s.len() == 0 {
        None
    } else if s[0].focused {
        Some(s[0])
    } else {
        spec_find_focused(s.drop_first())
    }
}

/// The children of the window named `name`, or nothing when no window
/// carries that name.
pub open spec fn spec_workspace_children(s: Seq<WindowView>, name: Seq<char>) -> Seq<WindowView> {
    match spec_find_named(s, name) {
        Some(v) => v.nodes,
        None => Seq::empty(),
    }
}

/// The workspace-to-windows table derived from the full window list.
pub open spec fn spec_ws_map(window_views: Seq<WindowView>, workspaces: Seq<Workspace>) -> Seq<
    (Seq<char>, Seq<WindowView>),
> {
    workspaces.map_values(
        |w: Workspace| (w.name@, spec_workspace_children(window_views, w.name@)),
    )
}

/// The workspace-to-names table derived from the full window list.
pub open spec fn spec_ws_names(window_views: Seq<WindowView>, workspaces: Seq<Workspace>) -> Seq<
    (Seq<char>, Seq<Seq<char>>),
> {
    workspaces.map_values(
        |w: Workspace| (
            w.name@,
            match spec_find_named(window_views, w.name@) {
                Some(v) => spec_node_names(v),
                None => Seq::<Seq<char>>::empty(),
            },
        ),
    )
}

/// Append a copy of every window of `src` to `dst`.
fn append_windows(dst: &mut Vec<Window>, src: &Vec<Window>)
    ensures
        views_of_nodes(final(dst)@) == views_of_nodes(old(dst)@) + views_of_nodes(src@),
{
    let mut i: usize = 0;
    while i < src.len()
        invariant
            i <= src.len(),
            views_of_nodes(dst@) == views_of_nodes(old(dst)@) + views_of_nodes(
                src@.take(i as int),
            ),
        decreases src.len() - i,
    {
        let w = src[i].clone();
        proof {
            crate::window::lemma_views_of_nodes_push(dst@, w);
            lemma_views_of_nodes_take(src@, i as int);
            lemma_views_of_nodes(src@.take(i as int));
        }
        dst.push(w);
        proof {
            assert(views_of_nodes(dst@) =~= views_of_nodes(old(dst)@) + views_of_nodes(
                src@.take(i + 1),
            ));
        }
        i = i + 1;
    }
    proof {
        assert(src@.take(src@.len() as int) =~= src@);
    }
}

/// All windows managed by the session: the attached windows followed
/// by the floating ones.
pub fn list_windows(attached: &Vec<Window>, floating: &Vec<Window>) -> (r: Vec<Window>)
    ensures
        views_of_nodes(r@) == views_of_nodes(attached@) + views_of_nodes(floating@),
{
    let mut all_windows: Vec<Window> = Vec::new();
    append_windows(&mut all_windows, attached);
    append_windows(&mut all_windows, floating);
    proof {
        assert(views_of_nodes(Seq::<Window>::empty()) =~= Seq::<WindowView>::empty());
        assert(views_of_nodes(all_windows@) =~= views_of_nodes(attached@) + views_of_nodes(
            floating@,
        ));
    }
    all_windows
}

/// The window named after a workspace, if the session has one.
pub fn get_workspace_window(windows: &Vec<Window>, workspace_name: &String) -> (r: Option<Window>)
    ensures
        opt_window_view(r) == spec_find_named(views_of_nodes(windows@), workspace_name@),
{
    proof {
        lemma_views_of_nodes(windows@);
    }
    let ghost vs = views_of_nodes(windows@);
    proof {
        assert(vs.skip(0) =~= vs);
    }
    let mut i: usize = 0;
    while i < windows.len()
        invariant
            i <= windows.len(),
            vs == views_of_nodes(windows@),
            vs.len() == windows@.len(),
            forall|j: int| 0 <= j < windows@.len() ==> #[trigger] vs[j] == windows@[j]@,
            spec_find_named(vs, workspace_name@) == spec_find_named(
                vs.skip(i as int),
                workspace_name@,
            ),
        decreases windows.len() - i,
    {
        let found = match &windows[i].name {
            Some(n) => *n == *workspace_name,
            None => false,
        };
        proof {
            assert(vs.skip(i as int).len() > 0);
            assert(vs.skip(i as int)[0] == vs[i as int]);
            assert(vs.skip(i as int).drop_first() =~= vs.skip(i + 1));
        }
        if found {
            let w = windows[i].clone();
            return Some(w);
        }
        i = i + 1;
    }
    proof {
        assert(vs.skip(windows@.len() as int).len() == 0);
    }
    None
}

/// The windows of the named workspace: the children of its workspace
/// window, or nothing when the session has no window of that name.
pub fn list_workspace_windows(windows: &Vec<Window>, workspace_name: &String) -> (r: Vec<Window>)
    ensures
        views_of_nodes(r@) == spec_workspace_children(views_of_nodes(windows@), workspace_name@),
{
    match get_workspace_window(windows, workspace_name) {
        Some(workspace_window) => workspace_window.nodes,
        None => {
            proof {
                assert(views_of_nodes(Seq::<Window>::empty()) =~= Seq::<WindowView>::empty());
            }
            Vec::new()
        },
    }
}

/// The table from workspace name to the windows of that workspace.
pub fn list_workspaces_and_windows(windows: &Vec<Window>, workspaces: &Vec<Workspace>) -> (r: Vec<
    (String, Vec<Window>),
>)
    ensures
        ws_map_views(r@) == spec_ws_map(views_of_nodes(windows@), workspaces@),
{
    let mut map: Vec<(String, Vec<Window>)> = Vec::new();
    let mut i: usize = 0;
    while i < workspaces.len()
        invariant
            i <= workspaces.len(),
            map@.len() == i,
            ws_map_views(map@) == spec_ws_map(views_of_nodes(windows@), workspaces@.take(i as int)),
        decreases workspaces.len() - i,
    {
        let ws = &workspaces[i];
        let entry = (ws.name.clone(), list_workspace_windows(windows, &ws.name));
        let ghost ge: (Seq<char>, Seq<WindowView>) = (entry.0@, views_of_nodes(entry.1@));
        map.push(entry);
        proof {
            let wv = views_of_nodes(windows@);
            assert(ge.0 == workspaces@[i as int].name@);
            assert(ge.1 == spec_workspace_children(wv, workspaces@[i as int].name@));
            assert(ws_map_views(map@).len() == i + 1);
            assert(spec_ws_map(wv, workspaces@.take(i + 1)).len() == i + 1);
            assert(ws_map_views(map@)[i as int] == ge);
            assert(spec_ws_map(wv, workspaces@.take(i + 1))[i as int] == (
                workspaces@[i as int].name@,
                spec_workspace_children(wv, workspaces@[i as int].name@),
            ));
            assert(forall|j: int| 0 <= j < i ==> #[trigger] ws_map_views(map@)[j] == spec_ws_map(
                wv,
                workspaces@.take(i as int),
            )[j]);
            assert(forall|j: int| 0 <= j < i ==> #[trigger] spec_ws_map(wv, workspaces@.take(i + 1))[j]
                == spec_ws_map(wv, workspaces@.take(i as int))[j]);
            assert(ws_map_views(map@) =~~= spec_ws_map(
                views_of_nodes(windows@),
                workspaces@.take(i + 1),
            ));
        }
        i = i + 1;
    }
    proof {
        assert(workspaces@.take(workspaces@.len() as int) =~= workspaces@);
    }
    map
}

/// The table from workspace name to the user-visible window names of
/// that workspace.
pub fn list_workspaces_and_window_names(windows: &Vec<Window>, workspaces: &Vec<Workspace>) -> (r:
    Vec<(String, Vec<String>)>)
    ensures
        ws_names_views(r@) == spec_ws_names(views_of_nodes(windows@), workspaces@),
{
    let mut map: Vec<(String, Vec<String>)> = Vec::new();
    let mut i: usize = 0;
    while i < workspaces.len()
        invariant
            i <= workspaces.len(),
            map@.len() == i,
            ws_names_views(map@) == spec_ws_names(
                views_of_nodes(windows@),
                workspaces@.take(i as int),
            ),
        decreases workspaces.len() - i,
    {
        let ws = &workspaces[i];
        let names = match get_workspace_window(windows, &ws.name) {
            Some(workspace_window) => workspace_window.node_names(),
            None => {
                proof {
                    assert(str_views(Seq::<String>::empty()) =~= Seq::<Seq<char>>::empty());
                }
                Vec::new()
            },
        };
        let ws_name: String = ws.name.clone();
        let ghost gn: (Seq<char>, Seq<Seq<char>>) = (ws_name@, str_views(names@));
        map.push((ws_name, names));
        proof {
            let wv = views_of_nodes(windows@);
            assert(gn.0 == workspaces@[i as int].name@);
            assert(gn.1 == match spec_find_named(wv, workspaces@[i as int].name@) {
                Some(v) => spec_node_names(v),
                None => Seq::<Seq<char>>::empty(),
            });
            assert(ws_names_views(map@)[i as int] == gn);
            assert(spec_ws_names(wv, workspaces@.take(i + 1))[i as int] == (
                workspaces@[i as int].name@,
                match spec_find_named(wv, workspaces@[i as int].name@) {
                    Some(v) => spec_node_names(v),
                    None => Seq::<Seq<char>>::empty(),
                },
            ));
            assert(forall|j: int| 0 <= j < i ==> #[trigger] ws_names_views(map@)[j]
                == spec_ws_names(wv, workspaces@.take(i as int))[j]);
            assert(forall|j: int| 0 <= j < i ==> #[trigger] spec_ws_names(wv, workspaces@.take(i + 1))[j]
                == spec_ws_names(wv, workspaces@.take(i as int))[j]);
            assert(ws_names_views(map@) =~~= spec_ws_names(
                views_of_nodes(windows@),
                workspaces@.take(i + 1),
            ));
        }
        i = i + 1;
    }
    proof {
        assert(workspaces@.take(workspaces@.len() as int) =~= workspaces@);
    }
    map
}

/// The currently focused window, if any.
pub fn get_focused_window(windows: &Vec<Window>) -> (r: Option<Window>)
    ensures
        opt_window_view(r) == spec_find_focused(views_of_nodes(windows@)),
{
    proof {
        lemma_views_of_nodes(windows@);
    }
    let ghost vs = views_of_nodes(windows@);
    proof {
        assert(vs.skip(0) =~= vs);
    }
    let mut i: usize = 0;
    while i < windows.len()
        invariant
            i <= windows.len(),
            vs == views_of_nodes(windows@),
            vs.len() == windows@.len(),
            forall|j: int| 0 <= j < windows@.len() ==> #[trigger] vs[j] == windows@[j]@,
            spec_find_focused(vs) == spec_find_focused(vs.skip(i as int)),
        decreases windows.len() - i,
    {
        proof {
            assert(vs.skip(i as int).len() > 0);
            assert(vs.skip(i as int)[0] == vs[i as int]);
            assert(vs.skip(i as int).drop_first() =~= vs.skip(i + 1));
        }
        if windows[i].focused {
            let w = windows[i].clone();
            return Some(w);
        }
        i = i + 1;
    }
    proof {
        assert(vs.skip(windows@.len() as int).len() == 0);
    }
    None
}

/// One consistent pull of the tree and every view derived from it.
#[derive(Debug)]
pub struct Snapshot {
    /// Every window of the session: attached first, floating after.
    pub windows: Vec<Window>,
    /// The workspaces of the session.
    pub workspaces: Vec<Workspace>,
    /// The windows taking part in a tiled layout.
    pub attached_windows: Vec<Window>,
    /// The windows floating above the layout.
    pub floating_windows: Vec<Window>,
    /// The focused window, if any.
    pub fcsd_window: Option<Window>,
    /// Workspace name to that workspace's windows.
    pub ws_map: Vec<(String, Vec<Window>)>,
    /// Workspace name to that workspace's user-visible window names.
    pub ws_map_names: Vec<(String, Vec<String>)>,
}

impl Snapshot {
    /// Build the snapshot from one query round's raw results: every
    /// derived view comes from these three lists alone.
    pub fn new(attached: Vec<Window>, floating: Vec<Window>, workspaces: Vec<Workspace>) -> (r:
        Snapshot)
        ensures
            r.attached_windows == attached,
            r.floating_windows == floating,
            r.workspaces == workspaces,
            views_of_nodes(r.windows@) == views_of_nodes(attached@) + views_of_nodes(floating@),
            ws_map_views(r.ws_map@) == spec_ws_map(views_of_nodes(r.windows@), workspaces@),
            ws_names_views(r.ws_map_names@) == spec_ws_names(
                views_of_nodes(r.windows@),
                workspaces@,
            ),
            opt_window_view(r.fcsd_window) == spec_find_focused(views_of_nodes(r.windows@)),
    {
        let windows = list_windows(&attached, &floating);
        let ws_map = list_workspaces_and_windows(&windows, &workspaces);
        let ws_map_names = list_workspaces_and_window_names(&windows, &workspaces);
        let fcsd_window = get_focused_window(&windows);
        Snapshot {
            windows,
            workspaces,
            attached_windows: attached,
            floating_windows: floating,
            fcsd_window,
            ws_map,
            ws_map_names,
        }
    }
}

} // verus!
