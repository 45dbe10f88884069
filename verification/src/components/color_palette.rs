//! The color palette popover of a pinned search.

use vstd::prelude::*;

use crate::pinned_search::types::{spec_css_class, HighlightColor};

verus! {

/// The CSS class of a color swatch; the swatch of the current color is marked selected.
pub open spec fn swatch_class_spec(color: HighlightColor, current: HighlightColor) -> Seq<char> {
    if color == current {
        "color-palette-swatch selected "@ + spec_css_class(color)
    } else {
        "color-palette-swatch "@ + spec_css_class(color)
    }
}

/// The CSS class of the swatch of `color` when `current` is the pinned search's color.
pub fn swatch_class(color: HighlightColor, current: HighlightColor) -> (class: String)
    ensures
        class@ == swatch_class_spec(color, current),
{
    proof {
        reveal_strlit("color-palette-swatch selected ");
        reveal_strlit("color-palette-swatch ");
    }
    let mut class = if color == current {
        String::from_str("color-palette-swatch selected ")
    } else {
        String::from_str("color-palette-swatch ")
    };
    class.append(color.css_class());
    class
}

} // verus!
