//! Per-window application state.

pub mod app_state;

pub use app_state::{AppState, PersistedState, SidebarState};
