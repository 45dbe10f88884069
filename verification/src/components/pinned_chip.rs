//! The chip of a pinned search in the search bar.

use vstd::prelude::*;

use crate::pinned_search::types::{spec_css_class, HighlightColor};

verus! {

/// The CSS class of a pinned-search chip: its color, and a marker when disabled.
pub open spec fn chip_class_spec(color: HighlightColor, disabled: bool) -> Seq<char> {
    if disabled {
        "pinned-chip pinned-chip--disabled "@ + spec_css_class(color)
    } else {
        "pinned-chip "@ + spec_css_class(color)
    }
}

/// The CSS class of the chip of a pinned search.
pub fn chip_class(color: HighlightColor, disabled: bool) -> (class: String)
    ensures
        class@ == chip_class_spec(color, disabled),
{
    proof {
        reveal_strlit("pinned-chip pinned-chip--disabled ");
        reveal_strlit("pinned-chip ");
    }
    let mut class = if disabled {
        String::from_str("pinned-chip pinned-chip--disabled ")
    } else {
        String::from_str("pinned-chip ")
    };
    class.append(color.css_class());
    class
}

} // verus!
