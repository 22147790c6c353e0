//! Startup decisions of a desktop application shell.
//!
//! The shell itself is glue around a webview framework: it registers plugins,
//! styles the main window with a translucent backdrop, attaches a logger in
//! debug builds and brings the running window to the front when the program is
//! launched a second time. Everything that touches the framework or the
//! operating system is done by the caller. This crate holds what is decided
//! along the way, as total functions on plain values, each with a contract
//! that Verus proves.

pub mod effects;
pub mod instance;
pub mod laws;
pub mod plugins;
pub mod setup;
