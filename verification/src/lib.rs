//! Lifecycle and command-bridge core of a webview-hosting desktop shell.
//!
//! The library owns the decisions of the native shell: whether a window
//! close request terminates the process or merely hides the window, which
//! menu and tray surfaces are wired up for a given configuration and
//! platform, and which native commands the embedded web content may invoke
//! by name. The surrounding process performs the window operations and runs
//! the event loop; it feeds events in and carries the decided actions out.

pub mod assembler;
pub mod laws;
pub mod lifecycle;
pub mod registry;
