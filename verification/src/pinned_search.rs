//! Pinned searches: keyword highlighting that persists across windows.

pub mod storage;
pub mod types;

pub use storage::{PinnedSearchFile, PinnedSearchStorage, SaveAction};
pub use types::{HighlightColor, PinnedSearch, PinnedSearchId, Timestamp};
