//! A match of a search pattern in the rendered document.

use vstd::prelude::*;

verus! {

/// One match of a search or pinned-search pattern, as reported by the page.
#[derive(Debug, Clone)]
pub struct MatchInfo {
    /// Position of the match among the matches of its pattern.
    pub index: usize,
    /// The matched text (empty when not reported).
    pub text: String,
    /// Surrounding text shown in the match list.
    pub context: String,
    /// The pattern that produced the match.
    pub pattern: String,
    /// Name of the highlight color of the pattern.
    pub color: String,
}

} // verus!
