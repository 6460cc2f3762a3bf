//! Directional keyboard focus switching for a tiling window manager.
//!
//! Given the focused window and a snapshot of all windows, the selector
//! picks the nearest window in a requested cardinal direction, filtering by
//! workspace, a strict half-plane test on centers, and positive overlap on
//! the orthogonal axis. A companion module recognises `movefocus` keybinding
//! lines of the window manager's configuration and plans the keyword
//! commands that install or remove this tool's bindings.

pub mod geom;
pub mod select;
pub mod bindings;
pub mod plan;
pub mod cli;
