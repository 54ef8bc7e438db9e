//! The core of a desktop file browser: where the session is in the directory
//! tree, which overlay is open, and which filesystem change a gesture asks for.
//!
//! Nothing here touches the disk or the screen. Every operation is a
//! transition on plain values; whatever has to be read from or done to the
//! platform is handed in as an argument or handed out as a request.

pub mod error;
pub mod path;
pub mod disk;
pub mod nav;
pub mod entry;
pub mod fileop;
pub mod launcher;
pub mod interaction;
pub mod app;
