//! Hot-reload core for a real-time audio processor.
//!
//! A control thread stages freshly built processing modules on disk under a
//! session directory, opens them, and hands extracted processing objects to
//! the real-time audio thread through a bounded non-blocking channel. The
//! audio thread swaps the active object between callbacks and computes output
//! samples deterministically. Modules, once opened, are retained for the life
//! of the process, so objects extracted from them never dangle.

pub mod channel;
pub mod control;
pub mod identity;
pub mod loader;
pub mod object;
pub mod poller;
pub mod processor;
pub mod stager;
pub mod ui_state;
