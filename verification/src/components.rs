//! What the user-interface components compute: CSS classes, labels and the
//! scripts they run in the page, and the search bar's state changes.

pub mod color_palette;
pub mod pinned_chip;
pub mod search_bar;
pub mod search_tab;
