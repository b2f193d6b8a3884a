//! Core logic of a small desktop orchestrator: launching external scraper
//! and game executables, classifying how those processes ended, persisting
//! key/value records about discovered items, and the tray-driven
//! application-lifecycle state machine.
//!
//! Everything here is plain computation with a verified contract. The
//! surrounding shell (the windowing framework, the native file picker, and
//! the actual spawning of OS processes) lives outside the library and talks
//! to it through plain values.

pub mod dialog;
pub mod game;
pub mod launcher;
pub mod lifecycle;
pub mod scrape;
pub mod store;
