//! Core state machine of a terminal tool for searching a repository index,
//! browsing paginated results, and multi-selecting entries.
//!
//! The library holds the verified logic: pagination arithmetic, the selection
//! set, the screen state machine, and keyboard-event dispatch. Terminal I/O,
//! the network search call, and the clone operation live outside it and hand
//! it plain values.

pub mod app;
pub mod fs;
pub mod pager;
pub mod search;
pub mod selection;
