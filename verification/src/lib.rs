//! Core logic of a snippet manager with a system-wide quick-insert popup:
//! where the popup goes, which alias names which snippet, how the single
//! hotkey binding changes hands, and how text is replayed into the focused
//! application. Everything here is pure: callers perform the platform work
//! and hand the outcomes in as plain values.

pub mod autostart;
pub mod config;
pub mod controller;
pub mod error;
pub mod files;
pub mod hotkey;
pub mod inject;
pub mod listing;
pub mod mnemonics;
pub mod paths;
pub mod placement;
pub mod prompts;
pub mod store;
pub mod text;
