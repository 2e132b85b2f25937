//! Navigation state machine over the four dashboard panes.
//!
//! The panes form a 2x2 grid: `Workspaces` (top left), `Attached` (top
//! right), `Focused` (bottom left) and `Floating` (bottom right).
//! Directional messages move the selection along the grid edges; plain
//! up/down messages move the highlighted index inside the `Workspaces`
//! and `Attached` panes, wrapping modulo the collection size.

use vstd::prelude::*;

verus! {

/// The pane of the home screen that currently holds the selection.
#[derive(Clone, Copy, Debug, PartialEq, Eq, Structural)]
pub enum HomeLayoutSelectedWindow {
    Workspaces,
    Focused,
    Attached,
    Floating,
}

/// Where the selection lands after an upward pane move.
pub open spec fn pane_up(p: HomeLayoutSelectedWindow) -> HomeLayoutSelectedWindow {
    match p {
        HomeLayoutSelectedWindow::Focused => HomeLayoutSelectedWindow::Workspaces,
        HomeLayoutSelectedWindow::Floating => HomeLayoutSelectedWindow::Attached,
        _ => p,
    }
}

/// Where the selection lands after a downward pane move.
pub open spec fn pane_down(p: HomeLayoutSelectedWindow) -> HomeLayoutSelectedWindow {
    match p {
        HomeLayoutSelectedWindow::Workspaces => HomeLayoutSelectedWindow::Focused,
        HomeLayoutSelectedWindow::Attached => HomeLayoutSelectedWindow::Floating,
        _ => p,
    }
}

/// Where the selection lands after a rightward pane move.
pub open spec fn pane_right(p: HomeLayoutSelectedWindow) -> HomeLayoutSelectedWindow {
    match p {
        HomeLayoutSelectedWindow::Workspaces => HomeLayoutSelectedWindow::Attached,
        HomeLayoutSelectedWindow::Focused => HomeLayoutSelectedWindow::Floating,
        _ => p,
    }
}

/// Where the selection lands after a leftward pane move.
pub open spec fn pane_left(p: HomeLayoutSelectedWindow) -> HomeLayoutSelectedWindow {
    match p {
        HomeLayoutSelectedWindow::Attached => HomeLayoutSelectedWindow::Workspaces,
        HomeLayoutSelectedWindow::Floating => HomeLayoutSelectedWindow::Focused,
        _ => p,
    }
}

/// The index after one wrapping increment inside a collection of
/// `count` entries. An empty collection leaves the index untouched;
/// an index at or past the last entry wraps to the front.
pub open spec fn spec_increment_index(i: nat, count: nat) -> nat {
    if count == 0 {
        i
    } else if i + 1 >= count {
        0
    } else {
        i + 1
    }
}

/// The index after one wrapping decrement inside a collection of
/// `count` entries. An empty collection leaves the index untouched;
/// index zero wraps to the back.
pub open spec fn spec_decrement_index(i: nat, count: nat) -> nat {
    if count == 0 {
        i
    } else if i == 0 {
        (count - 1) as nat
    } else {
        (i - 1) as nat
    }
}

/// One wrapping increment of a pane index.
pub fn increment_index(i: usize, count: usize) -> (r: usize)
    ensures
        r == spec_increment_index(i as nat, count as nat),
{
    if count == 0 {
        i
    } else if i >= count - 1 {
        0
    } else {
        i + 1
    }
}

/// One wrapping decrement of a pane index.
pub fn decrement_index(i: usize, count: usize) -> (r: usize)
    ensures
        r == spec_decrement_index(i as nat, count as nat),
{
    if count == 0 {
        i
    } else if i == 0 {
        count - 1
    } else {
        i - 1
    }
}

/// The navigation state of the home screen: the selected pane and the
/// highlighted index within the `Workspaces` and `Attached` panes.
#[derive(Clone, Copy, Debug, PartialEq, Eq, Structural)]
pub struct HomeLayout {
    pub selected: HomeLayoutSelectedWindow,
    pub workspaces_index: usize,
    pub attached_windows_index: usize,
}

impl HomeLayout {
    /// The initial navigation state: `Workspaces` selected, both indices zero.
    pub fn new() -> (r: HomeLayout)
        ensures
            r.selected == HomeLayoutSelectedWindow::Workspaces,
            r.workspaces_index == 0,
            r.attached_windows_index == 0,
    {
        HomeLayout {
            selected: HomeLayoutSelectedWindow::Workspaces,
            workspaces_index: 0,
            attached_windows_index: 0,
        }
    }

    /// Move the pane selection up along the grid.
    pub fn move_up(&mut self)
        ensures
            *final(self) == (HomeLayout { selected: pane_up(old(self).selected), ..*old(self) }),
    {
        self.selected = match self.selected {
            HomeLayoutSelectedWindow::Focused => HomeLayoutSelectedWindow::Workspaces,
            HomeLayoutSelectedWindow::Floating => HomeLayoutSelectedWindow::Attached,
            other => other,
        };
    }

    /// Move the pane selection down along the grid.
    pub fn move_down(&mut self)
        ensures
            *final(self) == (HomeLayout { selected: pane_down(old(self).selected), ..*old(self) }),
    {
        self.selected = match self.selected {
            HomeLayoutSelectedWindow::Workspaces => HomeLayoutSelectedWindow::Focused,
            HomeLayoutSelectedWindow::Attached => HomeLayoutSelectedWindow::Floating,
            other => other,
        };
    }

    /// Move the pane selection right along the grid.
    pub fn move_right(&mut self)
        ensures
            *final(self) == (HomeLayout { selected: pane_right(old(self).selected), ..*old(self) }),
    {
        self.selected = match self.selected {
            HomeLayoutSelectedWindow::Workspaces => HomeLayoutSelectedWindow::Attached,
            HomeLayoutSelectedWindow::Focused => HomeLayoutSelectedWindow::Floating,
            other => other,
        };
    }

    /// Move the pane selection left along the grid.
    pub fn move_left(&mut self)
        ensures
            *final(self) == (HomeLayout { selected: pane_left(old(self).selected), ..*old(self) }),
    {
        self.selected = match self.selected {
            HomeLayoutSelectedWindow::Attached => HomeLayoutSelectedWindow::Workspaces,
            HomeLayoutSelectedWindow::Floating => HomeLayoutSelectedWindow::Focused,
            other => other,
        };
    }

    /// Decrement the highlighted attached-window index, wrapping at zero.
    pub fn decrement_attached_index(&mut self, n_windows: usize)
        ensures
            *final(self) == (HomeLayout {
                attached_windows_index: spec_decrement_index(
                    old(self).attached_windows_index as nat,
                    n_windows as nat,
                ) as usize,
                ..*old(self)
            }),
    {
        self.attached_windows_index = decrement_index(self.attached_windows_index, n_windows);
    }

    /// Decrement the highlighted workspace index, wrapping at zero.
    pub fn decrement_workspace_index(&mut self, n_workspaces: usize)
        ensures
            *final(self) == (HomeLayout {
                workspaces_index: spec_decrement_index(
                    old(self).workspaces_index as nat,
                    n_workspaces as nat,
                ) as usize,
                ..*old(self)
            }),
    {
        self.workspaces_index = decrement_index(self.workspaces_index, n_workspaces);
    }

    /// Increment the highlighted attached-window index, wrapping at the back.
    pub fn increment_attached_index(&mut self, n_windows: usize)
        ensures
            *final(self) == (HomeLayout {
                attached_windows_index: spec_increment_index(
                    old(self).attached_windows_index as nat,
                    n_windows as nat,
                ) as usize,
                ..*old(self)
            }),
    {
        self.attached_windows_index = increment_index(self.attached_windows_index, n_windows);
    }

    /// Increment the highlighted workspace index, wrapping at the back.
    pub fn increment_workspace_index(&mut self, n_workspaces: usize)
        ensures
            *final(self) == (HomeLayout {
                workspaces_index: spec_increment_index(
                    old(self).workspaces_index as nat,
                    n_workspaces as nat,
                ) as usize,
                ..*old(self)
            }),
    {
        self.workspaces_index = increment_index(self.workspaces_index, n_workspaces);
    }

    /// A plain downward move: advances the index of the selected pane,
    /// if that pane carries an index; a pane move never happens here.
    pub fn move_down_inside(&mut self, n_workspaces: usize, n_windows: usize)
        ensures
            *final(self) == spec_move_down_inside(*old(self), n_workspaces as nat, n_windows as nat),
    {
        match self.selected {
            HomeLayoutSelectedWindow::Workspaces => self.increment_workspace_index(n_workspaces),
            HomeLayoutSelectedWindow::Attached => self.increment_attached_index(n_windows),
            _ => (),
        }
    }

    /// A plain upward move: moves the index of the selected pane back,
    /// if that pane carries an index; a pane move never happens here.
    pub fn move_up_inside(&mut self, n_workspaces: usize, n_windows: usize)
        ensures
            *final(self) == spec_move_up_inside(*old(self), n_workspaces as nat, n_windows as nat),
    {
        match self.selected {
            HomeLayoutSelectedWindow::Workspaces => self.decrement_workspace_index(n_workspaces),
            HomeLayoutSelectedWindow::Attached => self.decrement_attached_index(n_windows),
            _ => (),
        }
    }
}

/// The navigation state after a plain downward move.
pub open spec fn spec_move_down_inside(h: HomeLayout, n_workspaces: nat, n_windows: nat) -> HomeLayout {
    match h.selected {
        HomeLayoutSelectedWindow::Workspaces => HomeLayout {
            workspaces_index: spec_increment_index(h.workspaces_index as nat, n_workspaces) as usize,
            ..h
        },
        HomeLayoutSelectedWindow::Attached => HomeLayout {
            attached_windows_index: spec_increment_index(
                h.attached_windows_index as nat,
                n_windows,
            ) as usize,
            ..h
        },
        _ => h,
    }
}

/// On the navigation invariant's domain — a highlighted index in
/// range of a non-empty collection — one wrapping step follows the
/// plain formulas: an increment at the last entry wraps to the front
/// and otherwise adds one; a decrement at the front wraps to the back
/// and otherwise subtracts one.
pub proof fn lemma_index_step_in_range(i: nat, count: nat)
    requires
        0 < count,
        i < count,
    ensures
        spec_increment_index(i, count) == if i == count - 1 {
            0
        } else {
            i + 1
        },
        spec_decrement_index(i, count) == if i == 0 {
            (count - 1) as nat
        } else {
            (i - 1) as nat
        },
{
}

/// The index after `k` wrapping increments.
pub open spec fn spec_iter_increment(i: nat, count: nat, k: nat) -> nat
    decreases k,
{
    if k == 0 {
        i
    } else {
        spec_increment_index(spec_iter_increment(i, count, (k - 1) as nat), count)
    }
}

/// The index after `k` wrapping decrements.
pub open spec fn spec_iter_decrement(i: nat, count: nat, k: nat) -> nat
    decreases k,
{
    if k == 0 {
        i
    } else {
        spec_decrement_index(spec_iter_decrement(i, count, (k - 1) as nat), count)
    }
}

/// Closed form of iterated increments: for an in-range start, `k`
/// increments land on `i + k`, reduced once modulo `count`.
pub proof fn lemma_iter_increment_closed(i: nat, count: nat, k: nat)
    requires
        0 < count,
        i < count,
        k <= count,
    ensures
        spec_iter_increment(i, count, k) == if i + k < count {
            i + k
        } else {
            (i + k - count) as nat
        },
    decreases k,
{
    if k > 0 {
        lemma_iter_increment_closed(i, count, (k - 1) as nat);
    }
}

/// Closed form of iterated decrements: for an in-range start, `k`
/// decrements land on `i - k`, lifted once modulo `count`.
pub proof fn lemma_iter_decrement_closed(i: nat, count: nat, k: nat)
    requires
        0 < count,
        i < count,
        k <= count,
    ensures
        spec_iter_decrement(i, count, k) == if i >= k {
            (i - k) as nat
        } else {
            (i + count - k) as nat
        },
    decreases k,
{
    if k > 0 {
        lemma_iter_decrement_closed(i, count, (k - 1) as nat);
    }
}

/// The wrapping moves form a cyclic group of order `count` on the
/// in-range indices: `count` increments, or `count` decrements, return
/// an index to itself, and one decrement undoes one increment.
pub proof fn lemma_index_wrap_cycle(i: nat, count: nat)
    requires
        0 < count,
        i < count,
    ensures
        spec_iter_increment(i, count, count) == i,
        spec_iter_decrement(i, count, count) == i,
        spec_decrement_index(spec_increment_index(i, count), count) == i,
        spec_increment_index(spec_decrement_index(i, count), count) == i,
{
    lemma_iter_increment_closed(i, count, count);
    lemma_iter_decrement_closed(i, count, count);
}

/// Walking to the far end and back: `count - 1` increments followed by
/// `count - 1` decrements return an in-range index to its original
/// value, the two walks being inverse to each other.
pub proof fn lemma_index_walk_returns(i: nat, count: nat)
    requires
        0 < count,
        i < count,
    ensures
        spec_iter_decrement(
            spec_iter_increment(i, count, (count - 1) as nat),
            count,
            (count - 1) as nat,
        ) == i,
{
    let k = (count - 1) as nat;
    lemma_iter_increment_closed(i, count, k);
    let j = spec_iter_increment(i, count, k);
    lemma_iter_decrement_closed(j, count, k);
}

/// The pane-navigation transitions form a closed 2x2 grid: from every
/// pane there is an order of the four directional moves, each step
/// following an existing grid edge, that returns the selection to where
/// it started; and wherever a horizontal or vertical move changes the
/// pane, the opposite move leads straight back.
pub proof fn lemma_pane_grid_closed(p: HomeLayoutSelectedWindow)
    ensures
        pane_up(
            pane_left(pane_down(pane_right(HomeLayoutSelectedWindow::Workspaces))),
        ) == HomeLayoutSelectedWindow::Workspaces,
        pane_right(
            pane_up(pane_left(pane_down(HomeLayoutSelectedWindow::Attached))),
        ) == HomeLayoutSelectedWindow::Attached,
        pane_left(
            pane_down(pane_right(pane_up(HomeLayoutSelectedWindow::Focused))),
        ) == HomeLayoutSelectedWindow::Focused,
        pane_down(
            pane_right(pane_up(pane_left(HomeLayoutSelectedWindow::Floating))),
        ) == HomeLayoutSelectedWindow::Floating,
        pane_right(p) != p ==> pane_left(pane_right(p)) == p,
        pane_left(p) != p ==> pane_right(pane_left(p)) == p,
        pane_up(p) != p ==> pane_down(pane_up(p)) == p,
        pane_down(p) != p ==> pane_up(pane_down(p)) == p,
{
}

/// The navigation state after a plain upward move.
pub open spec fn spec_move_up_inside(h: HomeLayout, n_workspaces: nat, n_windows: nat) -> HomeLayout {
    match h.selected {
        HomeLayoutSelectedWindow::Workspaces => HomeLayout {
            workspaces_index: spec_decrement_index(h.workspaces_index as nat, n_workspaces) as usize,
            ..h
        },
        HomeLayoutSelectedWindow::Attached => HomeLayout {
            attached_windows_index: spec_decrement_index(
                h.attached_windows_index as nat,
                n_windows,
            ) as usize,
            ..h
        },
        _ => h,
    }
}

} // verus!
