//! Core logic of the Arto desktop viewer: pinned searches, search state,
//! and the single-instance IPC protocol, with verified contracts.

pub mod pinned_search;
pub mod components;
pub mod ipc;
pub mod paths;
pub mod search_match;
pub mod state;
pub mod text;
