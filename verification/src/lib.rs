//! Verified core of a clipboard-capture utility.
//!
//! The application listens for one global keyboard shortcut; when it fires,
//! the current clipboard text is read, trimmed, and — if anything is left —
//! dispatched to a named interface surface together with a focus request.
//! This crate holds the decision logic of that flow: the event filter that
//! gates the handler, the whitespace normalisation of the captured text, and
//! the per-trigger capture-and-dispatch decisions. The operating-system calls
//! themselves (hotkey registration, clipboard access, window messaging) live
//! in a thin unverified adapter around this crate.

pub mod shortcut;
pub mod text;
pub mod handler;
