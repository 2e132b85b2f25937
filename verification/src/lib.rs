//! Verified core of a terminal dashboard for a tiling window manager.
//!
//! The crate models the manager's window/workspace tree, the navigation
//! state machine over the four dashboard panes, and the update algorithm
//! that turns input messages into state transitions and control commands.
//! Everything that talks to the outside world (the manager's IPC socket,
//! the terminal, the screen) lives outside this crate; the core receives
//! plain snapshot values and hands back plain command values.

pub mod effect;
pub mod model;
pub mod snapshot;
pub mod nav;
pub mod text;
pub mod window;
pub mod workspace;
