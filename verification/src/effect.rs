//! Commands that the core asks the surrounding program to carry out.
//!
//! The update algorithm never talks to the window manager itself: it
//! returns a sequence of `Effect` values, and the event loop around the
//! library performs them in order against the live session.

use vstd::prelude::*;

verus! {

/// One side effect requested by the update algorithm, in the order the
/// surrounding loop must perform them.
#[derive(Debug, PartialEq, Eq)]
pub enum Effect {
    /// Focus the container with this session id.
    Focus(u64),
    /// Kill the container with this session id.
    Kill(u64),
    /// Move the container with this session id to the named workspace.
    MoveToWorkspace(u64, String),
    /// Switch to the named workspace, creating it if it does not exist.
    SwitchToWorkspace(String),
    /// Show the scratchpad.
    ShowScratchpad,
    /// Pull a fresh tree snapshot and hand it back through `Model::refresh`.
    Refresh,
    /// Record this status message through `Model::update_status`.
    SetStatus(String),
}

/// The mathematical shape of an `Effect`, with names as character
/// sequences.
pub ghost enum EffectView {
    Focus(u64),
    Kill(u64),
    MoveToWorkspace(u64, Seq<char>),
    SwitchToWorkspace(Seq<char>),
    ShowScratchpad,
    Refresh,
    SetStatus(Seq<char>),
}

impl View for Effect {
    type V = EffectView;

    open spec fn view(&self) -> EffectView {
        match self {
            Effect::Focus(id) => EffectView::Focus(*id),
            Effect::Kill(id) => EffectView::Kill(*id),
            Effect::MoveToWorkspace(id, ws) => EffectView::MoveToWorkspace(*id, ws@),
            Effect::SwitchToWorkspace(ws) => EffectView::SwitchToWorkspace(ws@),
            Effect::ShowScratchpad => EffectView::ShowScratchpad,
            Effect::Refresh => EffectView::Refresh,
            Effect::SetStatus(msg) => EffectView::SetStatus(msg@),
        }
    }
}

/// The views of a sequence of effects.
pub open spec fn effect_views(s: Seq<Effect>) -> Seq<EffectView> {
    s.map_values(|e: Effect| e@)
}

/// The command that moves one container to the named workspace.
pub fn move_window_to_workspace(window_id: u64, target_workspace: &String) -> (r: Effect)
    ensures
        r@ == EffectView::MoveToWorkspace(window_id, target_workspace@),
{
    Effect::MoveToWorkspace(window_id, target_workspace.clone())
}

} // verus!
