//! Window-focus core of a minimal single-display window manager.
//!
//! The crate tracks client toplevel windows, decides which one is visible and
//! focused, resolves user-configured keybindings after remap substitution,
//! dispatches the resulting actions, and decodes the line protocol of the
//! local control socket.  The surrounding display-server engine (surface and
//! buffer lifecycle, rendering, client plumbing) is a collaborator: the core
//! hands it requests as plain values and never blocks on it.

pub mod actions;
pub mod comp_utils;
pub mod compositor;
pub mod config;
pub mod keybinds;
pub mod render;
pub mod socket;
pub mod window;
pub mod xdg;
